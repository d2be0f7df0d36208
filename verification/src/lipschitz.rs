//! One bound for the whole circle: the pulses of any two phases lie no
//! further apart than a fixed multiple of the length on the circle between
//! the phases.
//!
//! The bound is proved for a window whose regions follow one another round
//! the circle without overlap. The circle is cut open at the start of the
//! blend-in; along the cut circle the pulse is made of four pieces that meet
//! at their ends, and each piece moves no faster than the bound allows.

use crate::continuity::{
    in_unit_square, lemma_blend_in_ends, lemma_blend_out_ends, lemma_point_at_lipschitz,
    lemma_scaled, lemma_weighted_sum, within,
};
use crate::pulse::{
    blend_in_end, blend_in_point, blend_in_start, blend_out_end, blend_out_point,
    blend_out_start, event_angle, event_pulse_spec, point_at, pulse_region, quarter_spec,
    tau_spec, PulseRegion,
};
use crate::range::{lemma_offset_within_length, map_modular_spec, modular_length};
use crate::scalar::{
    abs_spec, lemma_rem_euclid_absorb, lemma_rem_euclid_negative, lemma_rem_euclid_range,
    lemma_rem_euclid_small, max_spec, min_spec, rem_euclid_spec, FloatMath,
};
use vstd::prelude::*;

verus! {

/// Whether the regions of a window follow one another round the circle
/// without overlap: both bounds are phases of `[0, tau)`, the margins are not
/// negative and not both zero, the inner margins leave a core of the event,
/// and the outer margins leave a neutral rest.
pub open spec fn proper_window<T: FloatMath>(
    event_start: real,
    event_end: real,
    blend_outer: real,
    blend_inner: real,
) -> bool {
    let tau = tau_spec::<T>();
    let length = modular_length(tau, event_start, event_end);
    &&& 0real <= event_start < tau
    &&& 0real <= event_end < tau
    &&& blend_outer >= 0real
    &&& blend_inner >= 0real
    &&& blend_outer + blend_inner > 0real
    &&& 2real * blend_inner < length
    &&& length + 2real * blend_outer < tau
}

/// The length on the circle between two phases of `[0, tau)`, the shorter
/// way round.
pub open spec fn circular_distance<T: FloatMath>(p: real, q: real) -> real {
    min_spec(abs_spec(p - q), tau_spec::<T>() - abs_spec(p - q))
}

/// The slope that bounds the pulse: twice the larger of the slope of the
/// event angle, a full turn over the length of the window, and the slope of
/// the blend angle, a quarter turn over the length of a blend.
pub open spec fn pulse_slope<T: FloatMath>(
    event_start: real,
    event_end: real,
    blend_outer: real,
    blend_inner: real,
) -> real {
    slope::<T>(
        blend_outer,
        blend_inner,
        modular_length(tau_spec::<T>(), event_start, event_end),
    )
}

/// Where a phase lies on the circle cut open at the start of the blend-in:
/// its length from there.
pub open spec fn unrolled<T: FloatMath>(phase: real, event_start: real, blend_outer: real) -> real {
    modular_length(tau_spec::<T>(), blend_in_start::<T>(event_start, blend_outer), phase)
}

/// The ends of the four pieces on the cut circle: the start of the blend-in,
/// of the event core, of the blend-out and of the neutral rest, and the end
/// of the circle.
pub open spec fn joint<T: FloatMath>(k: int, outer: real, inner: real, length: real) -> real {
    if k <= 0 {
        0real
    } else if k == 1 {
        outer + inner
    } else if k == 2 {
        outer + length - inner
    } else if k == 3 {
        length + 2real * outer
    } else {
        tau_spec::<T>()
    }
}

/// The pulse at each end of a piece: the neutral point, but for the point of
/// the event at either end of the event core.
pub open spec fn joint_point<T: FloatMath>(k: int, inner: real, length: real) -> (real, real) {
    if k == 1 {
        point_at::<T>(inner / length * tau_spec::<T>())
    } else if k == 2 {
        point_at::<T>((length - inner) / length * tau_spec::<T>())
    } else {
        (1real, 0real)
    }
}

/// The formula of the piece `k` at the place `u` of the cut circle.
pub open spec fn piece_pulse<T: FloatMath>(
    k: int,
    u: real,
    outer: real,
    inner: real,
    length: real,
) -> (real, real) {
    if k == 0 {
        blend_in_point::<T>(
            u / (outer + inner) * quarter_spec::<T>(),
            joint_point::<T>(1, inner, length),
        )
    } else if k == 1 {
        point_at::<T>((u - outer) / length * tau_spec::<T>())
    } else if k == 2 {
        blend_out_point::<T>(
            (u - joint::<T>(2, outer, inner, length)) / (outer + inner) * quarter_spec::<T>(),
            joint_point::<T>(2, inner, length),
        )
    } else {
        (1real, 0real)
    }
}

/// The piece that a place of the cut circle lies in.
pub open spec fn piece_of<T: FloatMath>(u: real, outer: real, inner: real, length: real) -> int {
    if u < joint::<T>(1, outer, inner, length) {
        0
    } else if u < joint::<T>(2, outer, inner, length) {
        1
    } else if u < joint::<T>(3, outer, inner, length) {
        2
    } else {
        3
    }
}

/// The measures of a cut circle that the pieces are proved on: positive
/// lengths that leave a core and a rest.
pub open spec fn proper_measures<T: FloatMath>(outer: real, inner: real, length: real) -> bool {
    &&& outer >= 0real
    &&& inner >= 0real
    &&& outer + inner > 0real
    &&& 2real * inner < length
    &&& length + 2real * outer < tau_spec::<T>()
}

/// The slope in terms of the measures of the cut circle.
pub open spec fn slope<T: FloatMath>(outer: real, inner: real, length: real) -> real {
    2real * max_spec(tau_spec::<T>() / length, quarter_spec::<T>() / (outer + inner))
}

/// Two bounds in a row add up.
pub proof fn lemma_within_chain(
    a: (real, real),
    b: (real, real),
    c: (real, real),
    first: real,
    second: real,
)
    requires
        within(a, b, first),
        within(b, c, second),
    ensures
        within(a, c, first + second),
        within(c, a, first + second),
        within(b, a, first),
{
}

/// The slope is positive and at least twice the slope of either angle.
pub proof fn lemma_slope<T: FloatMath>(outer: real, inner: real, length: real)
    requires
        proper_measures::<T>(outer, inner, length),
    ensures
        slope::<T>(outer, inner, length) > 0real,
        slope::<T>(outer, inner, length) >= 2real * (tau_spec::<T>() / length),
        slope::<T>(outer, inner, length) >= 2real * (quarter_spec::<T>() / (outer + inner)),
        tau_spec::<T>() / length > 0real,
        quarter_spec::<T>() / (outer + inner) > 0real,
{
    T::trig_laws();
    let (tau, quarter, blend) = (tau_spec::<T>(), quarter_spec::<T>(), outer + inner);
    assert(tau / length > 0real) by (nonlinear_arith)
        requires
            tau > 0real,
            length > 0real,
    ;
    assert(quarter / blend > 0real) by (nonlinear_arith)
        requires
            quarter > 0real,
            blend > 0real,
    ;
}

/// Two blend-ins towards one target lie no further apart than twice their
/// angles do, and so do two blend-outs.
pub proof fn lemma_blend_lipschitz<T: FloatMath>(first: real, second: real, target: (real, real))
    requires
        in_unit_square(target),
    ensures
        within(
            blend_in_point::<T>(first, target),
            blend_in_point::<T>(second, target),
            2real * abs_spec(first - second),
        ),
        within(
            blend_out_point::<T>(first, target),
            blend_out_point::<T>(second, target),
            2real * abs_spec(first - second),
        ),
{
    T::trig_lipschitz(first, second);
    let (c1, s1) = (T::cos_spec(first), T::sin_spec(first));
    let (c2, s2) = (T::cos_spec(second), T::sin_spec(second));
    let (tx, ty) = target;
    lemma_weighted_sum(1real, c1 - c2, tx, s1 - s2);
    assert(1real * c1 + tx * s1 - (1real * c2 + tx * s2) == 1real * (c1 - c2) + tx * (s1 - s2))
        by (nonlinear_arith);
    lemma_scaled(ty, s1 - s2);
    assert(0real * c1 + ty * s1 - (0real * c2 + ty * s2) == ty * (s1 - s2)) by (nonlinear_arith);
    lemma_weighted_sum(tx, c1 - c2, 1real, s1 - s2);
    assert(tx * c1 + 1real * s1 - (tx * c2 + 1real * s2) == tx * (c1 - c2) + 1real * (s1 - s2))
        by (nonlinear_arith);
    lemma_scaled(ty, c1 - c2);
    assert(ty * c1 + 0real * s1 - (ty * c2 + 0real * s2) == ty * (c1 - c2)) by (nonlinear_arith);
}

/// Two places a step apart, each scaled by a positive slope, lie the scaled
/// step apart, and no further than a larger slope allows.
pub proof fn lemma_scaled_step(u1: real, u2: real, shift: real, over: real, turn: real, m: real)
    requires
        over > 0real,
        turn > 0real,
        m >= turn / over,
    ensures
        abs_spec((u1 - shift) / over * turn - (u2 - shift) / over * turn) <= m * abs_spec(u1 - u2),
        m * abs_spec(u1 - u2) >= 0real,
{
    let k = turn / over;
    assert((u1 - shift) / over * turn - (u2 - shift) / over * turn == (u1 - u2) * k)
        by (nonlinear_arith)
        requires
            over > 0real,
            k == turn / over,
    ;
    assert(k > 0real) by (nonlinear_arith)
        requires
            over > 0real,
            turn > 0real,
            k == turn / over,
    ;
    let step = abs_spec(u1 - u2);
    assert(abs_spec((u1 - u2) * k) == step * k) by (nonlinear_arith)
        requires
            k > 0real,
            step == abs_spec(u1 - u2),
    ;
    assert(step * k <= m * step && m * step >= 0real) by (nonlinear_arith)
        requires
            step >= 0real,
            m >= k,
            k > 0real,
    ;
}

/// Each piece starts at the pulse of its first end and reaches that of its
/// second end.
pub proof fn lemma_piece_ends<T: FloatMath>(k: int, outer: real, inner: real, length: real)
    requires
        proper_measures::<T>(outer, inner, length),
        0 <= k <= 3,
    ensures
        piece_pulse::<T>(k, joint::<T>(k, outer, inner, length), outer, inner, length)
            == joint_point::<T>(k, inner, length),
        piece_pulse::<T>(k, joint::<T>(k + 1, outer, inner, length), outer, inner, length)
            == joint_point::<T>(k + 1, inner, length),
{
    T::trig_laws();
    let blend = outer + inner;
    let quarter = quarter_spec::<T>();
    assert(0real / blend * quarter == 0real && blend / blend * quarter == quarter)
        by (nonlinear_arith)
        requires
            blend > 0real,
    ;
    lemma_blend_in_ends::<T>(joint_point::<T>(1, inner, length));
    lemma_blend_out_ends::<T>(joint_point::<T>(2, inner, length));
    if k == 1 {
        assert(joint::<T>(1, outer, inner, length) - outer == inner);
        assert(joint::<T>(2, outer, inner, length) - outer == length - inner);
    }
    if k == 2 {
        let start = joint::<T>(2, outer, inner, length);
        assert(start - start == 0real);
        assert(joint::<T>(3, outer, inner, length) - start == blend);
    }
}

/// Along each piece the pulse moves no faster than the slope allows.
pub proof fn lemma_piece_lipschitz<T: FloatMath>(
    k: int,
    u1: real,
    u2: real,
    outer: real,
    inner: real,
    length: real,
)
    requires
        proper_measures::<T>(outer, inner, length),
        0 <= k <= 3,
    ensures
        within(
            piece_pulse::<T>(k, u1, outer, inner, length),
            piece_pulse::<T>(k, u2, outer, inner, length),
            slope::<T>(outer, inner, length) * abs_spec(u1 - u2),
        ),
{
    T::trig_laws();
    lemma_slope::<T>(outer, inner, length);
    let m = slope::<T>(outer, inner, length);
    let (tau, quarter, blend) = (tau_spec::<T>(), quarter_spec::<T>(), outer + inner);
    let step = abs_spec(u1 - u2);
    if k == 0 || k == 2 {
        let shift = if k == 0 {
            0real
        } else {
            joint::<T>(2, outer, inner, length)
        };
        let target = if k == 0 {
            joint_point::<T>(1, inner, length)
        } else {
            joint_point::<T>(2, inner, length)
        };
        T::trig_range(inner / length * tau);
        T::trig_range((length - inner) / length * tau);
        let first = (u1 - shift) / blend * quarter;
        let second = (u2 - shift) / blend * quarter;
        lemma_blend_lipschitz::<T>(first, second, target);
        let half = m / 2real;
        lemma_scaled_step(u1, u2, shift, blend, quarter, half);
        assert(2real * (half * step) == m * step) by (nonlinear_arith)
            requires
                half == m / 2real,
        ;
        if k == 0 {
            assert(u1 - shift == u1 && u2 - shift == u2);
            assert(piece_pulse::<T>(0, u1, outer, inner, length) == blend_in_point::<T>(
                first,
                target,
            ));
            assert(piece_pulse::<T>(0, u2, outer, inner, length) == blend_in_point::<T>(
                second,
                target,
            ));
        }
    } else if k == 1 {
        lemma_point_at_lipschitz::<T>((u1 - outer) / length * tau, (u2 - outer) / length * tau);
        lemma_scaled_step(u1, u2, outer, length, tau, m);
    } else {
        assert(m * abs_spec(u1 - u2) >= 0real) by (nonlinear_arith)
            requires
                m > 0real,
        ;
    }
}

/// The pulse at a place of the cut circle: the formula of its piece.
pub open spec fn unrolled_pulse<T: FloatMath>(
    u: real,
    outer: real,
    inner: real,
    length: real,
) -> (real, real) {
    piece_pulse::<T>(piece_of::<T>(u, outer, inner, length), u, outer, inner, length)
}

/// From one end of a piece to a later one the pulse moves no further than
/// the slope allows.
pub proof fn lemma_joint_chain<T: FloatMath>(
    a: int,
    b: int,
    outer: real,
    inner: real,
    length: real,
)
    requires
        proper_measures::<T>(outer, inner, length),
        0 <= a <= b <= 4,
    ensures
        within(
            joint_point::<T>(a, inner, length),
            joint_point::<T>(b, inner, length),
            slope::<T>(outer, inner, length) * (joint::<T>(b, outer, inner, length) - joint::<T>(
                a,
                outer,
                inner,
                length,
            )),
        ),
    decreases b - a,
{
    let m = slope::<T>(outer, inner, length);
    if a == b {
        assert(m * 0real == 0real) by (nonlinear_arith);
    } else {
        let (ja, jm, jb) = (
            joint::<T>(a, outer, inner, length),
            joint::<T>(b - 1, outer, inner, length),
            joint::<T>(b, outer, inner, length),
        );
        lemma_joint_chain::<T>(a, b - 1, outer, inner, length);
        lemma_piece_ends::<T>(b - 1, outer, inner, length);
        lemma_piece_lipschitz::<T>(b - 1, jm, jb, outer, inner, length);
        assert(abs_spec(jm - jb) == jb - jm);
        assert(m * (jm - ja) + m * (jb - jm) == m * (jb - ja)) by (nonlinear_arith);
        lemma_within_chain(
            joint_point::<T>(a, inner, length),
            joint_point::<T>(b - 1, inner, length),
            joint_point::<T>(b, inner, length),
            m * (jm - ja),
            m * (jb - jm),
        );
    }
}

/// Along the cut circle the pulse moves no faster than the slope allows.
pub proof fn lemma_unrolled_lipschitz<T: FloatMath>(
    u1: real,
    u2: real,
    outer: real,
    inner: real,
    length: real,
)
    requires
        proper_measures::<T>(outer, inner, length),
        0real <= u1 <= u2 <= tau_spec::<T>(),
    ensures
        within(
            unrolled_pulse::<T>(u1, outer, inner, length),
            unrolled_pulse::<T>(u2, outer, inner, length),
            slope::<T>(outer, inner, length) * (u2 - u1),
        ),
{
    let m = slope::<T>(outer, inner, length);
    let i = piece_of::<T>(u1, outer, inner, length);
    let j = piece_of::<T>(u2, outer, inner, length);
    if i == j {
        lemma_piece_lipschitz::<T>(i, u1, u2, outer, inner, length);
    } else {
        let ji = joint::<T>(i + 1, outer, inner, length);
        let jj = joint::<T>(j, outer, inner, length);
        lemma_piece_ends::<T>(i, outer, inner, length);
        lemma_piece_lipschitz::<T>(i, u1, ji, outer, inner, length);
        lemma_joint_chain::<T>(i + 1, j, outer, inner, length);
        lemma_piece_ends::<T>(j, outer, inner, length);
        lemma_piece_lipschitz::<T>(j, jj, u2, outer, inner, length);
        assert(abs_spec(u1 - ji) == ji - u1 && abs_spec(jj - u2) == u2 - jj);
        assert(m * (ji - u1) + m * (jj - ji) + m * (u2 - jj) == m * (u2 - u1))
            by (nonlinear_arith);
        lemma_within_chain(
            unrolled_pulse::<T>(u1, outer, inner, length),
            joint_point::<T>(i + 1, inner, length),
            joint_point::<T>(j, inner, length),
            m * (ji - u1),
            m * (jj - ji),
        );
        lemma_within_chain(
            unrolled_pulse::<T>(u1, outer, inner, length),
            joint_point::<T>(j, inner, length),
            unrolled_pulse::<T>(u2, outer, inner, length),
            m * (ji - u1) + m * (jj - ji),
            m * (u2 - jj),
        );
    }
}

/// The pulse at a place of the cut circle lies no further from the neutral
/// point than the slope allows over the way to either end of the cut.
pub proof fn lemma_unrolled_near_neutral<T: FloatMath>(
    u: real,
    outer: real,
    inner: real,
    length: real,
)
    requires
        proper_measures::<T>(outer, inner, length),
        0real <= u <= tau_spec::<T>(),
    ensures
        within(
            unrolled_pulse::<T>(u, outer, inner, length),
            (1real, 0real),
            slope::<T>(outer, inner, length) * u,
        ),
        within(
            unrolled_pulse::<T>(u, outer, inner, length),
            (1real, 0real),
            slope::<T>(outer, inner, length) * (tau_spec::<T>() - u),
        ),
{
    let tau = tau_spec::<T>();
    lemma_piece_ends::<T>(0, outer, inner, length);
    lemma_unrolled_lipschitz::<T>(0real, u, outer, inner, length);
    lemma_unrolled_lipschitz::<T>(u, tau, outer, inner, length);
    assert(u - 0real == u);
}

/// The layout of a proper window on the cut circle: the four boundaries lie
/// the lengths of the blends and of the core apart, and the offsets of a
/// phase from them and from the start of the window are those of its place
/// on the cut circle.
pub proof fn lemma_window_layout<T: FloatMath>(
    phase: real,
    event_start: real,
    event_end: real,
    blend_outer: real,
    blend_inner: real,
)
    requires
        proper_window::<T>(event_start, event_end, blend_outer, blend_inner),
    ensures
        ({
            let tau = tau_spec::<T>();
            let ta = blend_in_start::<T>(event_start, blend_outer);
            let tb = blend_in_end::<T>(event_start, blend_inner);
            let tc = blend_out_start::<T>(event_end, blend_inner);
            let td = blend_out_end::<T>(event_end, blend_outer);
            let length = modular_length(tau, event_start, event_end);
            let u = unrolled::<T>(phase, event_start, blend_outer);
            &&& 0real <= ta < tau && 0real <= tb < tau && 0real <= tc < tau && 0real <= td < tau
            &&& 0real <= u < tau
            &&& proper_measures::<T>(blend_outer, blend_inner, length)
            &&& modular_length(tau, ta, tb) == blend_outer + blend_inner
            &&& modular_length(tau, tb, tc) == length - 2real * blend_inner
            &&& modular_length(tau, tc, td) == blend_outer + blend_inner
            &&& rem_euclid_spec(phase - ta, tau) == u
            &&& rem_euclid_spec(phase - tb, tau) == rem_euclid_spec(
                u - (blend_outer + blend_inner),
                tau,
            )
            &&& rem_euclid_spec(phase - tc, tau) == rem_euclid_spec(
                u - (blend_outer + length - blend_inner),
                tau,
            )
            &&& rem_euclid_spec(phase - event_start, tau) == rem_euclid_spec(u - blend_outer, tau)
            &&& rem_euclid_spec(tb - event_start, tau) == blend_inner
            &&& rem_euclid_spec(tc - event_start, tau) == length - blend_inner
        }),
{
    let tau = tau_spec::<T>();
    let (s, e, bo, bi) = (event_start, event_end, blend_outer, blend_inner);
    let (a, b, c, d) = (s - bo, s + bi, e - bi, e + bo);
    let ta = rem_euclid_spec(a, tau);
    let tb = rem_euclid_spec(b, tau);
    let tc = rem_euclid_spec(c, tau);
    let td = rem_euclid_spec(d, tau);
    let length = rem_euclid_spec(e - s, tau);
    let u = rem_euclid_spec(phase - ta, tau);
    let blend = bo + bi;
    let core_end = bo + length - bi;
    lemma_rem_euclid_range(a, tau);
    lemma_rem_euclid_range(b, tau);
    lemma_rem_euclid_range(c, tau);
    lemma_rem_euclid_range(d, tau);
    lemma_rem_euclid_range(phase - ta, tau);
    // the blend-in: from a to b
    lemma_rem_euclid_absorb(b, -ta, tau);
    lemma_rem_euclid_absorb(a, b, tau);
    assert(tb - ta == tb + (-ta) && b + (-ta) == b - ta && b - a == blend);
    lemma_rem_euclid_small(blend, tau);
    assert(rem_euclid_spec(tb - ta, tau) == blend);
    // the core: from b to c
    lemma_rem_euclid_absorb(c, -tb, tau);
    lemma_rem_euclid_absorb(b, c, tau);
    lemma_rem_euclid_absorb(e - s, -(2real * bi), tau);
    assert(tc - tb == tc + (-tb) && c + (-tb) == c - tb);
    assert(c - b == (e - s) + (-(2real * bi)));
    assert(length + (-(2real * bi)) == length - 2real * bi);
    lemma_rem_euclid_small(length - 2real * bi, tau);
    assert(rem_euclid_spec(tc - tb, tau) == length - 2real * bi);
    // the blend-out: from c to d
    lemma_rem_euclid_absorb(d, -tc, tau);
    lemma_rem_euclid_absorb(c, d, tau);
    assert(td - tc == td + (-tc) && d + (-tc) == d - tc && d - c == blend);
    assert(rem_euclid_spec(td - tc, tau) == blend);
    // the place of the phase, and its offsets
    lemma_rem_euclid_absorb(a, phase, tau);
    assert(u == rem_euclid_spec(phase - a, tau));
    lemma_rem_euclid_absorb(b, phase, tau);
    lemma_rem_euclid_absorb(phase - a, -blend, tau);
    assert(u + (-blend) == u - blend && phase - a + (-blend) == phase - b);
    assert(rem_euclid_spec(phase - tb, tau) == rem_euclid_spec(u - blend, tau));
    lemma_rem_euclid_absorb(c, phase, tau);
    lemma_rem_euclid_absorb(phase - a, -core_end, tau);
    lemma_rem_euclid_absorb(e - s, phase + bi - s, tau);
    assert(u + (-core_end) == u - core_end);
    assert(phase - a + (-core_end) == phase + bi - s - length);
    assert(phase + bi - s - (e - s) == phase - c);
    assert(rem_euclid_spec(phase - tc, tau) == rem_euclid_spec(u - core_end, tau));
    lemma_rem_euclid_absorb(phase - a, -bo, tau);
    assert(u + (-bo) == u - bo && phase - a + (-bo) == phase - s);
    assert(rem_euclid_spec(phase - s, tau) == rem_euclid_spec(u - bo, tau));
    // the two ends of the core, from the start of the window
    lemma_rem_euclid_absorb(b, -s, tau);
    assert(tb - s == tb + (-s) && b + (-s) == bi);
    lemma_rem_euclid_small(bi, tau);
    assert(rem_euclid_spec(tb - s, tau) == bi);
    lemma_rem_euclid_absorb(c, -s, tau);
    lemma_rem_euclid_absorb(e - s, -bi, tau);
    assert(tc - s == tc + (-s) && c + (-s) == (e - s) + (-bi));
    assert(length + (-bi) == length - bi);
    lemma_rem_euclid_small(length - bi, tau);
    assert(rem_euclid_spec(tc - s, tau) == length - bi);
}

/// The pulse of a proper window at a phase is the pulse at the place of the
/// phase on the cut circle.
pub proof fn lemma_pulse_unrolled<T: FloatMath>(
    phase: real,
    event_start: real,
    event_end: real,
    blend_outer: real,
    blend_inner: real,
)
    requires
        proper_window::<T>(event_start, event_end, blend_outer, blend_inner),
        0real <= phase < tau_spec::<T>(),
    ensures
        event_pulse_spec::<T>(phase, event_start, event_end, blend_outer, blend_inner)
            == unrolled_pulse::<T>(
            unrolled::<T>(phase, event_start, blend_outer),
            blend_outer,
            blend_inner,
            modular_length(tau_spec::<T>(), event_start, event_end),
        ),
{
    let tau = tau_spec::<T>();
    let quarter = quarter_spec::<T>();
    let (s, e, bo, bi) = (event_start, event_end, blend_outer, blend_inner);
    let ta = blend_in_start::<T>(s, bo);
    let tb = blend_in_end::<T>(s, bi);
    let tc = blend_out_start::<T>(e, bi);
    let td = blend_out_end::<T>(e, bo);
    let length = modular_length(tau, s, e);
    let u = unrolled::<T>(phase, s, bo);
    let blend = bo + bi;
    let core_end = bo + length - bi;
    lemma_window_layout::<T>(phase, s, e, bo, bi);
    lemma_offset_within_length(tau, phase, ta, tb);
    lemma_offset_within_length(tau, phase, tb, tc);
    lemma_offset_within_length(tau, phase, tc, td);
    let region = pulse_region::<T>(phase, s, e, bo, bi);
    let piece = piece_of::<T>(u, bo, bi, length);
    assert(joint::<T>(1, bo, bi, length) == blend);
    assert(joint::<T>(2, bo, bi, length) == core_end);
    assert(joint::<T>(3, bo, bi, length) == core_end + blend);
    if u < blend {
        assert(region is BlendIn && piece == 0);
        assert(map_modular_spec(phase, tau, ta, tb, 0real, quarter) == u / blend * quarter);
        assert(event_angle::<T>(tb, s, e) == bi / length * tau);
    } else if u < core_end {
        lemma_rem_euclid_small(u - blend, tau);
        lemma_rem_euclid_small(u - bo, tau);
        assert(region is Event && piece == 1);
        assert(event_angle::<T>(phase, s, e) == (u - bo) / length * tau);
    } else if u < core_end + blend {
        lemma_rem_euclid_small(u - blend, tau);
        lemma_rem_euclid_small(u - core_end, tau);
        assert(region is BlendOut && piece == 2);
        assert(map_modular_spec(phase, tau, tc, td, 0real, quarter) == (u - core_end) / blend
            * quarter);
        assert(event_angle::<T>(tc, s, e) == (length - bi) / length * tau);
    } else {
        lemma_rem_euclid_small(u - blend, tau);
        lemma_rem_euclid_small(u - core_end, tau);
        assert(region is Neutral && piece == 3);
    }
}

/// The pulse of a proper window has no jump anywhere: the pulses of any two
/// phases of `[0, tau)` lie no further apart, in either coordinate, than the
/// slope times the length on the circle between the phases.
pub proof fn lemma_pulse_lipschitz<T: FloatMath>(
    p: real,
    q: real,
    event_start: real,
    event_end: real,
    blend_outer: real,
    blend_inner: real,
)
    requires
        proper_window::<T>(event_start, event_end, blend_outer, blend_inner),
        0real <= p < tau_spec::<T>(),
        0real <= q < tau_spec::<T>(),
    ensures
        within(
            event_pulse_spec::<T>(p, event_start, event_end, blend_outer, blend_inner),
            event_pulse_spec::<T>(q, event_start, event_end, blend_outer, blend_inner),
            pulse_slope::<T>(event_start, event_end, blend_outer, blend_inner)
                * circular_distance::<T>(p, q),
        ),
{
    let tau = tau_spec::<T>();
    let (s, e, bo, bi) = (event_start, event_end, blend_outer, blend_inner);
    let length = modular_length(tau, s, e);
    let m = slope::<T>(bo, bi, length);
    let ta = blend_in_start::<T>(s, bo);
    let up = unrolled::<T>(p, s, bo);
    let uq = unrolled::<T>(q, s, bo);
    lemma_window_layout::<T>(p, s, e, bo, bi);
    lemma_window_layout::<T>(q, s, e, bo, bi);
    lemma_pulse_unrolled::<T>(p, s, e, bo, bi);
    lemma_pulse_unrolled::<T>(q, s, e, bo, bi);
    // the place of a phase on the cut circle is the phase, moved by the cut
    if p >= ta {
        lemma_rem_euclid_small(p - ta, tau);
    } else {
        lemma_rem_euclid_negative(p - ta, tau);
    }
    if q >= ta {
        lemma_rem_euclid_small(q - ta, tau);
    } else {
        lemma_rem_euclid_negative(q - ta, tau);
    }
    let (low, high) = if up <= uq {
        (up, uq)
    } else {
        (uq, up)
    };
    let direct = high - low;
    let distance = circular_distance::<T>(p, q);
    assert(direct == abs_spec(p - q) || direct == tau - abs_spec(p - q));
    assert(distance == direct || distance == tau - direct);
    // the way along the cut circle, and the way round through the cut
    lemma_unrolled_lipschitz::<T>(low, high, bo, bi, length);
    lemma_unrolled_near_neutral::<T>(low, bo, bi, length);
    lemma_unrolled_near_neutral::<T>(high, bo, bi, length);
    assert(m * low + m * (tau - high) == m * (tau - direct)) by (nonlinear_arith)
        requires
            direct == high - low,
    ;
    lemma_within_chain(
        unrolled_pulse::<T>(low, bo, bi, length),
        (1real, 0real),
        unrolled_pulse::<T>(high, bo, bi, length),
        m * low,
        m * (tau - high),
    );
    lemma_within_chain(
        unrolled_pulse::<T>(low, bo, bi, length),
        unrolled_pulse::<T>(high, bo, bi, length),
        unrolled_pulse::<T>(high, bo, bi, length),
        m * direct,
        0real,
    );
}

} // verus!
