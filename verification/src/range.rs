//! The range mapper: linear and modular remapping of a value from one
//! interval into another.

use crate::pulse::in_modular_range_spec;
use crate::scalar::{
    lemma_rem_euclid_negative, lemma_rem_euclid_periodic, lemma_rem_euclid_shift,
    lemma_rem_euclid_small, max_spec, min_spec, rem_euclid_spec, Scalar,
};
use vstd::prelude::*;

verus! {

/// `x` held between `lo` and `hi`: the larger of `lo` and the smaller of `x`
/// and `hi`.
pub open spec fn clamp_spec(x: real, lo: real, hi: real) -> real {
    max_spec(lo, min_spec(x, hi))
}

/// Where `x` lies between `lo` and `hi`, as a fraction of the way.
pub open spec fn normalize_spec(x: real, lo: real, hi: real) -> real {
    (x - lo) / (hi - lo)
}

/// The point of `[blo, bhi]` that lies as far along as `x` lies along
/// `[lo, hi]`.
pub open spec fn map_spec(x: real, lo: real, hi: real, blo: real, bhi: real) -> real {
    blo + normalize_spec(x, lo, hi) * (bhi - blo)
}

/// The length of the interval from `lo` to `hi` on a circle of the given
/// period.
pub open spec fn modular_length(period: real, lo: real, hi: real) -> real {
    rem_euclid_spec(hi - lo, period)
}

/// The remap of `x` on a circle of the given period: its offset from `lo`,
/// over the length of the interval, scaled into `[blo, bhi]`.
pub open spec fn map_modular_spec(
    x: real,
    period: real,
    lo: real,
    hi: real,
    blo: real,
    bhi: real,
) -> real {
    blo + rem_euclid_spec(x - lo, period) / modular_length(period, lo, hi) * (bhi - blo)
}

/// Holds `position` between the two bounds. With the bounds in order the
/// result lies between them.
pub fn range_clamp<T: Scalar>(position: T, range_start: T, range_end: T) -> (r: T)
    ensures
        r@ == clamp_spec(position@, range_start@, range_end@),
        range_start@ <= range_end@ ==> range_start@ <= r@ <= range_end@,
{
    range_start.max(position.min(range_end))
}

/// The fraction of the way that `position` lies from `range_start` to
/// `range_end`. With the two bounds equal nothing is known of the result.
pub fn range_normalize<T: Scalar>(position: T, range_start: T, range_end: T) -> (r: T)
    ensures
        range_end@ != range_start@ ==> r@ == normalize_spec(
            position@,
            range_start@,
            range_end@,
        ),
{
    proof {
        T::arithmetic_laws();
    }
    (position - range_start) / (range_end - range_start)
}

/// `range_normalize`, held between zero and one.
pub fn range_normalize_clamped<T: Scalar>(position: T, range_start: T, range_end: T) -> (r: T)
    ensures
        0real <= r@ <= 1real,
        range_end@ != range_start@ ==> r@ == clamp_spec(
            normalize_spec(position@, range_start@, range_end@),
            0real,
            1real,
        ),
{
    let normalized_position = range_normalize(position, range_start, range_end);
    range_clamp(normalized_position, T::zero(), T::one())
}

/// The affine remap of `position` from `[range_start, range_end]` to
/// `[blend_start, blend_end]`. With the two source bounds equal nothing is
/// known of the result.
pub fn range_map<T: Scalar>(
    position: T,
    range_start: T,
    range_end: T,
    blend_start: T,
    blend_end: T,
) -> (r: T)
    ensures
        range_end@ != range_start@ ==> r@ == map_spec(
            position@,
            range_start@,
            range_end@,
            blend_start@,
            blend_end@,
        ),
{
    proof {
        T::arithmetic_laws();
    }
    let normalized_position = range_normalize(position, range_start, range_end);
    blend_start + normalized_position * (blend_end - blend_start)
}

/// `range_map`, held between the two target bounds.
pub fn range_map_clamped<T: Scalar>(
    position: T,
    range_start: T,
    range_end: T,
    blend_start: T,
    blend_end: T,
) -> (r: T)
    ensures
        blend_start@ <= blend_end@ ==> blend_start@ <= r@ <= blend_end@,
        range_end@ != range_start@ ==> r@ == clamp_spec(
            map_spec(position@, range_start@, range_end@, blend_start@, blend_end@),
            blend_start@,
            blend_end@,
        ),
{
    let mapped_position = range_map(position, range_start, range_end, blend_start, blend_end);
    range_clamp(mapped_position, blend_start, blend_end)
}

/// Maps a position within a modular (wrapped) range.
///
/// `position` is taken to lie between `range_start` and `range_end` on the
/// circle of circumference `divisor`; where it does not, the result passes
/// `blend_end`. With a zero divisor, or an interval of length zero on the
/// circle, nothing is known of the result.
pub fn range_map_modular<T: Scalar>(
    position: T,
    divisor: T,
    range_start: T,
    range_end: T,
    blend_start: T,
    blend_end: T,
) -> (r: T)
    ensures
        divisor@ != 0real && modular_length(divisor@, range_start@, range_end@) != 0real ==> r@
            == map_modular_spec(
            position@,
            divisor@,
            range_start@,
            range_end@,
            blend_start@,
            blend_end@,
        ),
{
    proof {
        T::arithmetic_laws();
    }
    // modular interval length
    let length = (range_end - range_start).rem_euclid(&divisor);

    // modular offset of the value from the start
    let offset = (position - range_start).rem_euclid(&divisor);

    // scale to the output range
    blend_start + offset / length * (blend_end - blend_start)
}

/// A clamped value lies between the bounds, where these are in order.
pub proof fn lemma_clamp_in_bounds(x: real, lo: real, hi: real)
    requires
        lo <= hi,
    ensures
        lo <= clamp_spec(x, lo, hi) <= hi,
        lo <= x <= hi ==> clamp_spec(x, lo, hi) == x,
{
}

/// `normalize_spec` is affine in its first argument: it sends `lo` to zero,
/// `hi` to one, and the point a fraction `t` of the way from `lo` to `hi` to
/// `t`.
pub proof fn lemma_normalize_affine(t: real, lo: real, hi: real)
    requires
        lo != hi,
    ensures
        normalize_spec(lo, lo, hi) == 0real,
        normalize_spec(hi, lo, hi) == 1real,
        normalize_spec(lo + t * (hi - lo), lo, hi) == t,
{
    assert((lo - lo) / (hi - lo) == 0real) by (nonlinear_arith)
        requires
            lo != hi,
    ;
    assert((hi - lo) / (hi - lo) == 1real) by (nonlinear_arith)
        requires
            lo != hi,
    ;
    assert((lo + t * (hi - lo) - lo) / (hi - lo) == t) by (nonlinear_arith)
        requires
            lo != hi,
    ;
}

/// `map_spec` is affine in its first argument: it sends `lo` to `blo`, `hi`
/// to `bhi`, and the point a fraction `t` of the way from `lo` to `hi` to the
/// point the same fraction of the way from `blo` to `bhi`.
pub proof fn lemma_map_affine(t: real, lo: real, hi: real, blo: real, bhi: real)
    requires
        lo != hi,
    ensures
        map_spec(lo, lo, hi, blo, bhi) == blo,
        map_spec(hi, lo, hi, blo, bhi) == bhi,
        map_spec(lo + t * (hi - lo), lo, hi, blo, bhi) == blo + t * (bhi - blo),
{
    lemma_normalize_affine(t, lo, hi);
    assert(0real * (bhi - blo) == 0real) by (nonlinear_arith);
    assert(1real * (bhi - blo) == bhi - blo) by (nonlinear_arith);
}

/// Two distinct phases of `[0, d)` are a non-zero length apart on the circle.
pub proof fn lemma_modular_length_nonzero(d: real, lo: real, hi: real)
    requires
        0real <= lo < d,
        0real <= hi < d,
        lo != hi,
    ensures
        modular_length(d, lo, hi) != 0real,
{
    let x = hi - lo;
    let q = (x / d).floor();
    if x > 0real {
        assert(0real < x / d < 1real) by (nonlinear_arith)
            requires
                0real < x < d,
        ;
        assert(q == 0);
        assert(d * (q as real) == 0real) by (nonlinear_arith)
            requires
                q == 0,
        ;
    } else {
        assert(-1real < x / d < 0real) by (nonlinear_arith)
            requires
                -d < x < 0real,
        ;
        assert(q == -1);
        assert(d * (q as real) == -d) by (nonlinear_arith)
            requires
                q == -1,
        ;
    }
}

/// For phases of `[0, period)`, a phase lies inside an interval of the circle
/// exactly where its offset from the start is less than the length of the
/// interval.
pub proof fn lemma_offset_within_length(period: real, value: real, start: real, end: real)
    requires
        0real <= value < period,
        0real <= start < period,
        0real <= end < period,
    ensures
        0real <= rem_euclid_spec(value - start, period),
        in_modular_range_spec(value, start, end) <==> rem_euclid_spec(value - start, period)
            < modular_length(period, start, end),
{
    if value >= start {
        lemma_rem_euclid_small(value - start, period);
    } else {
        lemma_rem_euclid_negative(value - start, period);
    }
    if end >= start {
        lemma_rem_euclid_small(end - start, period);
    } else {
        lemma_rem_euclid_negative(end - start, period);
    }
}

/// The lengths from the start of an interval to a phase inside it, and from
/// that phase to the end, add up to the length of the interval.
pub proof fn lemma_modular_length_splits(period: real, value: real, start: real, end: real)
    requires
        0real <= value < period,
        0real <= start < period,
        0real <= end < period,
        in_modular_range_spec(value, start, end),
    ensures
        modular_length(period, start, value) + modular_length(period, value, end)
            == modular_length(period, start, end),
        modular_length(period, value, end) > 0real,
{
    if value >= start {
        lemma_rem_euclid_small(value - start, period);
    } else {
        lemma_rem_euclid_negative(value - start, period);
    }
    if end >= start {
        lemma_rem_euclid_small(end - start, period);
    } else {
        lemma_rem_euclid_negative(end - start, period);
    }
    if end >= value {
        lemma_rem_euclid_small(end - value, period);
    } else {
        lemma_rem_euclid_negative(end - value, period);
    }
}

/// The remap of a phase inside its interval lies in the target, from its
/// start on and before its end, and runs in proportion to the offset of the
/// phase.
pub proof fn lemma_map_modular_in_target(
    x: real,
    period: real,
    lo: real,
    hi: real,
    blo: real,
    bhi: real,
)
    requires
        0real <= x < period,
        0real <= lo < period,
        0real <= hi < period,
        in_modular_range_spec(x, lo, hi),
        blo < bhi,
    ensures
        blo <= map_modular_spec(x, period, lo, hi, blo, bhi) < bhi,
        map_modular_spec(x, period, lo, hi, blo, bhi) == blo + rem_euclid_spec(x - lo, period)
            / modular_length(period, lo, hi) * (bhi - blo),
{
    lemma_offset_within_length(period, x, lo, hi);
    let offset = rem_euclid_spec(x - lo, period);
    let length = modular_length(period, lo, hi);
    let width = bhi - blo;
    assert(0real <= offset / length * width < width) by (nonlinear_arith)
        requires
            0real <= offset < length,
            width > 0real,
    ;
}

/// The remap of a phase outside its interval passes the end of the target.
pub proof fn lemma_map_modular_past_target(
    x: real,
    period: real,
    lo: real,
    hi: real,
    blo: real,
    bhi: real,
)
    requires
        0real <= x < period,
        0real <= lo < period,
        0real <= hi < period,
        lo != hi,
        !in_modular_range_spec(x, lo, hi),
        blo <= bhi,
    ensures
        map_modular_spec(x, period, lo, hi, blo, bhi) >= bhi,
{
    lemma_offset_within_length(period, x, lo, hi);
    lemma_modular_length_nonzero(period, lo, hi);
    lemma_offset_within_length(period, hi, lo, hi);
    let offset = rem_euclid_spec(x - lo, period);
    let length = modular_length(period, lo, hi);
    let width = bhi - blo;
    assert(offset / length * width >= width) by (nonlinear_arith)
        requires
            0real < length <= offset,
            width >= 0real,
    ;
}

/// The remap sends the start of its interval to the start of the target and
/// the end of the interval to the end of the target.
pub proof fn lemma_map_modular_ends(period: real, lo: real, hi: real, blo: real, bhi: real)
    requires
        period > 0real,
        modular_length(period, lo, hi) != 0real,
    ensures
        map_modular_spec(lo, period, lo, hi, blo, bhi) == blo,
        map_modular_spec(hi, period, lo, hi, blo, bhi) == bhi,
{
    let length = modular_length(period, lo, hi);
    lemma_rem_euclid_small(0real, period);
    assert(0real / length * (bhi - blo) == 0real) by (nonlinear_arith)
        requires
            length != 0real,
    ;
    assert(length / length * (bhi - blo) == bhi - blo) by (nonlinear_arith)
        requires
            length != 0real,
    ;
}

/// The remap is affine in the phase: moving the phase by `delta` moves the
/// result by the same fraction of the target as `delta` is of the interval,
/// as long as the offset of the phase stays inside `[0, period)`.
pub proof fn lemma_map_modular_affine(
    x: real,
    delta: real,
    period: real,
    lo: real,
    hi: real,
    blo: real,
    bhi: real,
)
    requires
        period > 0real,
        modular_length(period, lo, hi) != 0real,
        0real <= rem_euclid_spec(x - lo, period) + delta < period,
    ensures
        map_modular_spec(x + delta, period, lo, hi, blo, bhi) == map_modular_spec(
            x,
            period,
            lo,
            hi,
            blo,
            bhi,
        ) + delta / modular_length(period, lo, hi) * (bhi - blo),
{
    lemma_rem_euclid_shift(x - lo, delta, period);
    assert(x + delta - lo == x - lo + delta);
    let offset = rem_euclid_spec(x - lo, period);
    let length = modular_length(period, lo, hi);
    let width = bhi - blo;
    assert((offset + delta) / length * width == offset / length * width + delta / length * width)
        by (nonlinear_arith)
        requires
            length != 0real,
    ;
}

/// The remap does not change where its argument moves by a whole number of
/// periods.
pub proof fn lemma_map_modular_periodic(
    x: real,
    turns: int,
    period: real,
    lo: real,
    hi: real,
    blo: real,
    bhi: real,
)
    requires
        period > 0real,
    ensures
        map_modular_spec(x + turns as real * period, period, lo, hi, blo, bhi) == map_modular_spec(
            x,
            period,
            lo,
            hi,
            blo,
            bhi,
        ),
{
    lemma_rem_euclid_periodic(x - lo, turns, period);
    assert(x + turns as real * period - lo == x - lo + turns as real * period);
}

} // verus!
