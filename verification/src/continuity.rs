//! The pulse has no jump: at each boundary between two regions both regions
//! give the same point, and how far the pulse of a phase lies from that point
//! is bounded in proportion to the length on the circle between the phase and
//! the boundary.
//!
//! Within a blend the pulse lies within twice the blend angle of the point it
//! sets out from, and within twice the angle that is left of the point it
//! heads for. Within the event, the pulse lies no further from the point at
//! an angle than its own angle does, and a step of the phase moves the angle
//! in proportion.

use crate::pulse::{
    blend_in_end, blend_in_point, blend_in_start, blend_out_end, blend_out_point,
    blend_out_start, event_angle, event_pulse_spec, in_modular_range_spec,
    lemma_cycle_interpolate_ends, lemma_empty_modular_range, point_at, pulse_region,
    quarter_spec, tau_spec, wrap_spec, PulseRegion,
};
use crate::range::{
    lemma_map_modular_affine, lemma_map_modular_ends, lemma_map_modular_in_target,
    lemma_map_modular_periodic, lemma_modular_length_nonzero, lemma_modular_length_splits,
    lemma_offset_within_length, map_modular_spec, modular_length,
};
use crate::scalar::{abs_spec, lemma_rem_euclid_range, rem_euclid_spec, FloatMath};
use vstd::prelude::*;

verus! {

/// Whether two points lie within `bound` of each other, in each coordinate.
pub open spec fn within(a: (real, real), b: (real, real), bound: real) -> bool {
    abs_spec(a.0 - b.0) <= bound && abs_spec(a.1 - b.1) <= bound
}

/// Whether both coordinates of a point lie between minus one and one.
pub open spec fn in_unit_square(point: (real, real)) -> bool {
    -1real <= point.0 <= 1real && -1real <= point.1 <= 1real
}

/// A blend-in starts at the neutral point and ends at its target: the
/// rotation is the neutral point at the zero angle and the target at the
/// quarter turn.
pub proof fn lemma_blend_in_ends<T: FloatMath>(target: (real, real))
    ensures
        blend_in_point::<T>(0real, target) == (1real, 0real),
        blend_in_point::<T>(quarter_spec::<T>(), target) == target,
{
    lemma_cycle_interpolate_ends::<T>(1real, target.0);
    lemma_cycle_interpolate_ends::<T>(0real, target.1);
}

/// A blend-out starts at its target and ends at the neutral point.
pub proof fn lemma_blend_out_ends<T: FloatMath>(target: (real, real))
    ensures
        blend_out_point::<T>(0real, target) == target,
        blend_out_point::<T>(quarter_spec::<T>(), target) == (1real, 0real),
{
    lemma_cycle_interpolate_ends::<T>(target.0, 1real);
    lemma_cycle_interpolate_ends::<T>(target.1, 0real);
}

/// The magnitude of `a * u` is at most that of `u`, where `a` lies between
/// minus one and one.
pub proof fn lemma_scaled(a: real, u: real)
    requires
        -1real <= a <= 1real,
    ensures
        abs_spec(a * u) <= abs_spec(u),
{
    assert(abs_spec(a * u) <= abs_spec(u)) by (nonlinear_arith)
        requires
            -1real <= a <= 1real,
    ;
}

/// The magnitude of `a * u + b * v` is at most that of `u` and `v` together,
/// where `a` and `b` lie between minus one and one.
pub proof fn lemma_weighted_sum(a: real, u: real, b: real, v: real)
    requires
        -1real <= a <= 1real,
        -1real <= b <= 1real,
    ensures
        abs_spec(a * u + b * v) <= abs_spec(u) + abs_spec(v),
{
    lemma_scaled(a, u);
    lemma_scaled(b, v);
}

/// The point at an angle has both coordinates between minus one and one.
pub proof fn lemma_point_in_unit_square<T: FloatMath>(angle: real)
    ensures
        in_unit_square(point_at::<T>(angle)),
{
    T::trig_range(angle);
}

/// Two points at two angles lie no further apart than the angles.
pub proof fn lemma_point_at_lipschitz<T: FloatMath>(a: real, b: real)
    ensures
        within(point_at::<T>(a), point_at::<T>(b), abs_spec(a - b)),
{
    T::trig_lipschitz(a, b);
}

/// A blend-in at the angle `theta` lies within `2 * theta` of the neutral
/// point, and within twice the rest of the quarter turn of its target.
pub proof fn lemma_blend_in_moves_with_angle<T: FloatMath>(theta: real, target: (real, real))
    requires
        0real <= theta <= quarter_spec::<T>(),
        in_unit_square(target),
    ensures
        within(blend_in_point::<T>(theta, target), (1real, 0real), 2real * theta),
        within(
            blend_in_point::<T>(theta, target),
            target,
            2real * (quarter_spec::<T>() - theta),
        ),
{
    T::trig_laws();
    T::trig_lipschitz(theta, 0real);
    T::trig_lipschitz(theta, quarter_spec::<T>());
    let (c, s) = (T::cos_spec(theta), T::sin_spec(theta));
    let (tx, ty) = target;
    assert(0real * c == 0real) by (nonlinear_arith);
    // from the neutral point: (c - 1) + tx * s and ty * s
    lemma_weighted_sum(1real, c - 1real, tx, s);
    lemma_scaled(ty, s);
    assert(1real * c + tx * s - 1real == 1real * (c - 1real) + tx * s) by (nonlinear_arith);
    // from the target: c + tx * (s - 1) and ty * (s - 1)
    lemma_weighted_sum(1real, c, tx, s - 1real);
    lemma_scaled(ty, s - 1real);
    assert(1real * c + tx * s - tx == 1real * c + tx * (s - 1real)) by (nonlinear_arith);
    assert(0real * c + ty * s - ty == ty * (s - 1real)) by (nonlinear_arith);
}

/// A blend-out at the angle `theta` lies within `2 * theta` of its target,
/// and within twice the rest of the quarter turn of the neutral point.
pub proof fn lemma_blend_out_moves_with_angle<T: FloatMath>(theta: real, target: (real, real))
    requires
        0real <= theta <= quarter_spec::<T>(),
        in_unit_square(target),
    ensures
        within(blend_out_point::<T>(theta, target), target, 2real * theta),
        within(
            blend_out_point::<T>(theta, target),
            (1real, 0real),
            2real * (quarter_spec::<T>() - theta),
        ),
{
    T::trig_laws();
    T::trig_lipschitz(theta, 0real);
    T::trig_lipschitz(theta, quarter_spec::<T>());
    let (c, s) = (T::cos_spec(theta), T::sin_spec(theta));
    let (tx, ty) = target;
    assert(0real * s == 0real) by (nonlinear_arith);
    // from the target: tx * (c - 1) + s and ty * (c - 1)
    lemma_weighted_sum(tx, c - 1real, 1real, s);
    lemma_scaled(ty, c - 1real);
    assert(tx * c + 1real * s - tx == tx * (c - 1real) + 1real * s) by (nonlinear_arith);
    assert(ty * c + 0real * s - ty == ty * (c - 1real)) by (nonlinear_arith);
    // from the neutral point: tx * c + (s - 1) and ty * c
    lemma_weighted_sum(tx, c, 1real, s - 1real);
    lemma_scaled(ty, c);
    assert(tx * c + 1real * s - 1real == tx * c + 1real * (s - 1real)) by (nonlinear_arith);
}

/// The pulse at the start of a blend-in is the neutral point: coming from the
/// neutral region the pulse does not jump where the blend-in sets in.
pub proof fn lemma_pulse_at_blend_in_start<T: FloatMath>(
    event_start: real,
    event_end: real,
    blend_outer: real,
    blend_inner: real,
)
    requires
        blend_in_start::<T>(event_start, blend_outer) != blend_in_end::<T>(
            event_start,
            blend_inner,
        ),
    ensures
        pulse_region::<T>(
            blend_in_start::<T>(event_start, blend_outer),
            event_start,
            event_end,
            blend_outer,
            blend_inner,
        ) is BlendIn,
        event_pulse_spec::<T>(
            blend_in_start::<T>(event_start, blend_outer),
            event_start,
            event_end,
            blend_outer,
            blend_inner,
        ) == (1real, 0real),
{
    T::trig_laws();
    let tau = tau_spec::<T>();
    let ta = blend_in_start::<T>(event_start, blend_outer);
    let tb = blend_in_end::<T>(event_start, blend_inner);
    lemma_rem_euclid_range(event_start - blend_outer, tau);
    lemma_rem_euclid_range(event_start + blend_inner, tau);
    lemma_modular_length_nonzero(tau, ta, tb);
    lemma_map_modular_ends(tau, ta, tb, 0real, quarter_spec::<T>());
    lemma_blend_in_ends::<T>(point_at::<T>(event_angle::<T>(tb, event_start, event_end)));
}

/// The pulse at the start of a blend-out is the pulse of the event at that
/// phase: coming from the core of the event the pulse does not jump where the
/// blend-out sets in.
pub proof fn lemma_pulse_at_blend_out_start<T: FloatMath>(
    event_start: real,
    event_end: real,
    blend_outer: real,
    blend_inner: real,
)
    requires
        pulse_region::<T>(
            blend_out_start::<T>(event_end, blend_inner),
            event_start,
            event_end,
            blend_outer,
            blend_inner,
        ) is BlendOut,
    ensures
        event_pulse_spec::<T>(
            blend_out_start::<T>(event_end, blend_inner),
            event_start,
            event_end,
            blend_outer,
            blend_inner,
        ) == point_at::<T>(
            event_angle::<T>(blend_out_start::<T>(event_end, blend_inner), event_start, event_end),
        ),
{
    T::trig_laws();
    let tau = tau_spec::<T>();
    let tc = blend_out_start::<T>(event_end, blend_inner);
    let td = blend_out_end::<T>(event_end, blend_outer);
    lemma_rem_euclid_range(event_end - blend_inner, tau);
    lemma_rem_euclid_range(event_end + blend_outer, tau);
    lemma_empty_modular_range(tc, tc);
    lemma_modular_length_nonzero(tau, tc, td);
    lemma_map_modular_ends(tau, tc, td, 0real, quarter_spec::<T>());
    lemma_blend_out_ends::<T>(point_at::<T>(event_angle::<T>(tc, event_start, event_end)));
}

/// The pulse at the end of a blend-in is the point that the blend-in heads
/// for, where the event core or, with no core left, the blend-out starts
/// there.
pub proof fn lemma_pulse_at_blend_in_end<T: FloatMath>(
    event_start: real,
    event_end: real,
    blend_outer: real,
    blend_inner: real,
)
    requires
        ({
            let tb = blend_in_end::<T>(event_start, blend_inner);
            let region = pulse_region::<T>(tb, event_start, event_end, blend_outer, blend_inner);
            region is Event || (region is BlendOut && tb == blend_out_start::<T>(
                event_end,
                blend_inner,
            ))
        }),
    ensures
        event_pulse_spec::<T>(
            blend_in_end::<T>(event_start, blend_inner),
            event_start,
            event_end,
            blend_outer,
            blend_inner,
        ) == point_at::<T>(
            event_angle::<T>(blend_in_end::<T>(event_start, blend_inner), event_start, event_end),
        ),
{
    let tb = blend_in_end::<T>(event_start, blend_inner);
    if pulse_region::<T>(tb, event_start, event_end, blend_outer, blend_inner) is BlendOut {
        lemma_pulse_at_blend_out_start::<T>(event_start, event_end, blend_outer, blend_inner);
    }
}

/// The pulse at the end of a blend-out is the neutral point, where the
/// neutral region or, with none left, the blend-in starts there.
pub proof fn lemma_pulse_at_blend_out_end<T: FloatMath>(
    event_start: real,
    event_end: real,
    blend_outer: real,
    blend_inner: real,
)
    requires
        ({
            let td = blend_out_end::<T>(event_end, blend_outer);
            let region = pulse_region::<T>(td, event_start, event_end, blend_outer, blend_inner);
            region is Neutral || (region is BlendIn && td == blend_in_start::<T>(
                event_start,
                blend_outer,
            ))
        }),
    ensures
        event_pulse_spec::<T>(
            blend_out_end::<T>(event_end, blend_outer),
            event_start,
            event_end,
            blend_outer,
            blend_inner,
        ) == (1real, 0real),
{
    let td = blend_out_end::<T>(event_end, blend_outer);
    if pulse_region::<T>(td, event_start, event_end, blend_outer, blend_inner) is BlendIn {
        lemma_empty_modular_range(td, td);
        lemma_pulse_at_blend_in_start::<T>(event_start, event_end, blend_outer, blend_inner);
    }
}

/// The blend angle of a phase inside a blend, and the angle that is left to
/// the quarter turn: the lengths on the circle from the start of the blend to
/// the phase, and from the phase to the end of the blend, each over the
/// length of the blend and times the quarter turn.
pub open spec fn blend_angles<T: FloatMath>(phase: real, start: real, end: real) -> (real, real) {
    let tau = tau_spec::<T>();
    (
        modular_length(tau, start, phase) / modular_length(tau, start, end) * quarter_spec::<T>(),
        modular_length(tau, phase, end) / modular_length(tau, start, end) * quarter_spec::<T>(),
    )
}

/// Inside a blend the blend angle and the angle that is left make up the
/// quarter turn, the first from zero on and the second above zero, and the
/// blend angle is the remap of the phase into the quarter turn.
pub proof fn lemma_blend_angles<T: FloatMath>(phase: real, start: real, end: real)
    requires
        0real <= phase < tau_spec::<T>(),
        0real <= start < tau_spec::<T>(),
        0real <= end < tau_spec::<T>(),
        in_modular_range_spec(phase, start, end),
    ensures
        blend_angles::<T>(phase, start, end).0 + blend_angles::<T>(phase, start, end).1
            == quarter_spec::<T>(),
        blend_angles::<T>(phase, start, end).0 >= 0real,
        blend_angles::<T>(phase, start, end).1 > 0real,
        blend_angles::<T>(phase, start, end).0 == map_modular_spec(
            phase,
            tau_spec::<T>(),
            start,
            end,
            0real,
            quarter_spec::<T>(),
        ),
{
    T::trig_laws();
    let tau = tau_spec::<T>();
    let quarter = quarter_spec::<T>();
    lemma_modular_length_splits(tau, phase, start, end);
    lemma_offset_within_length(tau, phase, start, end);
    lemma_map_modular_in_target(phase, tau, start, end, 0real, quarter);
    let (done, left) = (modular_length(tau, start, phase), modular_length(tau, phase, end));
    let length = modular_length(tau, start, end);
    assert(done / length * quarter + left / length * quarter == quarter) by (nonlinear_arith)
        requires
            done + left == length,
            length > 0real,
    ;
    assert(left / length * quarter > 0real) by (nonlinear_arith)
        requires
            left > 0real,
            length > 0real,
            quarter > 0real,
    ;
}

/// Within the blend-in the pulse lies within twice the blend angle of the
/// neutral point, and within twice the angle that is left of the pulse at the
/// start of the event core. Both angles are in proportion to the length on
/// the circle between the phase and the boundary in question, so the pulse
/// has no jump at either end of the blend-in.
pub proof fn lemma_pulse_within_blend_in<T: FloatMath>(
    phase: real,
    event_start: real,
    event_end: real,
    blend_outer: real,
    blend_inner: real,
)
    requires
        0real <= phase < tau_spec::<T>(),
        pulse_region::<T>(phase, event_start, event_end, blend_outer, blend_inner) is BlendIn,
    ensures
        ({
            let ta = blend_in_start::<T>(event_start, blend_outer);
            let tb = blend_in_end::<T>(event_start, blend_inner);
            let (theta, rest) = blend_angles::<T>(phase, ta, tb);
            let pulse = event_pulse_spec::<T>(
                phase,
                event_start,
                event_end,
                blend_outer,
                blend_inner,
            );
            &&& within(pulse, (1real, 0real), 2real * theta)
            &&& within(
                pulse,
                point_at::<T>(event_angle::<T>(tb, event_start, event_end)),
                2real * rest,
            )
        }),
{
    T::trig_laws();
    let tau = tau_spec::<T>();
    let ta = blend_in_start::<T>(event_start, blend_outer);
    let tb = blend_in_end::<T>(event_start, blend_inner);
    lemma_rem_euclid_range(event_start - blend_outer, tau);
    lemma_rem_euclid_range(event_start + blend_inner, tau);
    lemma_blend_angles::<T>(phase, ta, tb);
    let theta = map_modular_spec(phase, tau, ta, tb, 0real, quarter_spec::<T>());
    let target = point_at::<T>(event_angle::<T>(tb, event_start, event_end));
    lemma_point_in_unit_square::<T>(event_angle::<T>(tb, event_start, event_end));
    lemma_blend_in_moves_with_angle::<T>(theta, target);
}

/// Within the blend-out the pulse lies within twice the blend angle of the
/// pulse at the end of the event core, and within twice the angle that is
/// left of the neutral point. Both angles are in proportion to the length on
/// the circle between the phase and the boundary in question, so the pulse
/// has no jump at either end of the blend-out.
pub proof fn lemma_pulse_within_blend_out<T: FloatMath>(
    phase: real,
    event_start: real,
    event_end: real,
    blend_outer: real,
    blend_inner: real,
)
    requires
        0real <= phase < tau_spec::<T>(),
        pulse_region::<T>(phase, event_start, event_end, blend_outer, blend_inner) is BlendOut,
    ensures
        ({
            let tc = blend_out_start::<T>(event_end, blend_inner);
            let td = blend_out_end::<T>(event_end, blend_outer);
            let (theta, rest) = blend_angles::<T>(phase, tc, td);
            let pulse = event_pulse_spec::<T>(
                phase,
                event_start,
                event_end,
                blend_outer,
                blend_inner,
            );
            &&& within(
                pulse,
                point_at::<T>(event_angle::<T>(tc, event_start, event_end)),
                2real * theta,
            )
            &&& within(pulse, (1real, 0real), 2real * rest)
        }),
{
    T::trig_laws();
    let tau = tau_spec::<T>();
    let tc = blend_out_start::<T>(event_end, blend_inner);
    let td = blend_out_end::<T>(event_end, blend_outer);
    lemma_rem_euclid_range(event_end - blend_inner, tau);
    lemma_rem_euclid_range(event_end + blend_outer, tau);
    lemma_blend_angles::<T>(phase, tc, td);
    let theta = map_modular_spec(phase, tau, tc, td, 0real, quarter_spec::<T>());
    let target = point_at::<T>(event_angle::<T>(tc, event_start, event_end));
    lemma_point_in_unit_square::<T>(event_angle::<T>(tc, event_start, event_end));
    lemma_blend_out_moves_with_angle::<T>(theta, target);
}

/// Within the event core the pulse lies no further from the point at any
/// angle than its own angle does.
pub proof fn lemma_pulse_within_event<T: FloatMath>(
    phase: real,
    angle: real,
    event_start: real,
    event_end: real,
    blend_outer: real,
    blend_inner: real,
)
    requires
        pulse_region::<T>(phase, event_start, event_end, blend_outer, blend_inner) is Event,
    ensures
        within(
            event_pulse_spec::<T>(phase, event_start, event_end, blend_outer, blend_inner),
            point_at::<T>(angle),
            abs_spec(event_angle::<T>(phase, event_start, event_end) - angle),
        ),
{
    lemma_point_at_lipschitz::<T>(event_angle::<T>(phase, event_start, event_end), angle);
}

/// A step of `delta` from a phase to one in the event core moves the pulse no
/// further from the point at the event angle of the first phase than the step
/// is of the window, taken of the full turn. The step may go either way, as
/// long as the offset of the phase from the start of the window stays inside
/// `[0, tau)`. With the first phase at either end of the event core this
/// bounds the pulse near that end, so the pulse has no jump there.
pub proof fn lemma_pulse_step_within_event<T: FloatMath>(
    phase: real,
    delta: real,
    event_start: real,
    event_end: real,
    blend_outer: real,
    blend_inner: real,
)
    requires
        modular_length(tau_spec::<T>(), event_start, event_end) != 0real,
        0real <= rem_euclid_spec(phase - event_start, tau_spec::<T>()) + delta < tau_spec::<T>(),
        pulse_region::<T>(phase + delta, event_start, event_end, blend_outer, blend_inner)
            is Event,
    ensures
        within(
            event_pulse_spec::<T>(
                phase + delta,
                event_start,
                event_end,
                blend_outer,
                blend_inner,
            ),
            point_at::<T>(event_angle::<T>(phase, event_start, event_end)),
            abs_spec(delta) / modular_length(tau_spec::<T>(), event_start, event_end)
                * tau_spec::<T>(),
        ),
{
    T::trig_laws();
    let tau = tau_spec::<T>();
    let length = modular_length(tau, event_start, event_end);
    lemma_rem_euclid_range(event_end - event_start, tau);
    lemma_map_modular_affine(phase, delta, tau, event_start, event_end, 0real, tau);
    lemma_pulse_within_event::<T>(
        phase + delta,
        event_angle::<T>(phase, event_start, event_end),
        event_start,
        event_end,
        blend_outer,
        blend_inner,
    );
    assert(abs_spec(delta / length * (tau - 0real)) == abs_spec(delta) / length * tau)
        by (nonlinear_arith)
        requires
            length > 0real,
            tau > 0real,
    ;
}

/// The event core opens and closes at the neutral point: at the start of
/// the window the event angle is zero, at its end it is the full turn, and
/// the point at either angle is `(1, 0)`.
pub proof fn lemma_event_meets_neutral<T: FloatMath>(event_start: real, event_end: real)
    requires
        modular_length(tau_spec::<T>(), event_start, event_end) != 0real,
    ensures
        event_angle::<T>(wrap_spec::<T>(event_start), event_start, event_end) == 0real,
        event_angle::<T>(wrap_spec::<T>(event_end), event_start, event_end) == tau_spec::<T>(),
        point_at::<T>(0real) == (1real, 0real),
        point_at::<T>(tau_spec::<T>()) == (1real, 0real),
{
    T::trig_laws();
    let tau = tau_spec::<T>();
    lemma_map_modular_ends(tau, event_start, event_end, 0real, tau);
    let start_turns = (event_start / tau).floor();
    lemma_map_modular_periodic(event_start, -start_turns, tau, event_start, event_end, 0real, tau);
    assert(wrap_spec::<T>(event_start) == event_start + (-start_turns) as real * tau)
        by (nonlinear_arith)
        requires
            wrap_spec::<T>(event_start) == event_start - tau * start_turns as real,
    ;
    let end_turns = (event_end / tau).floor();
    lemma_map_modular_periodic(event_end, -end_turns, tau, event_start, event_end, 0real, tau);
    assert(wrap_spec::<T>(event_end) == event_end + (-end_turns) as real * tau)
        by (nonlinear_arith)
        requires
            wrap_spec::<T>(event_end) == event_end - tau * end_turns as real,
    ;
}

/// Half way through the window the pulse of the event points away from the
/// neutral point: the event angle is the half turn there, and the point at
/// the half turn is `(-1, 0)`.
pub proof fn lemma_event_midpoint<T: FloatMath>(phase: real, event_start: real, event_end: real)
    requires
        modular_length(tau_spec::<T>(), event_start, event_end) != 0real,
        2real * rem_euclid_spec(phase - event_start, tau_spec::<T>()) == modular_length(
            tau_spec::<T>(),
            event_start,
            event_end,
        ),
    ensures
        event_angle::<T>(phase, event_start, event_end) == T::pi_spec(),
        point_at::<T>(event_angle::<T>(phase, event_start, event_end)) == (-1real, 0real),
{
    T::trig_laws();
    let tau = tau_spec::<T>();
    let length = modular_length(tau, event_start, event_end);
    let offset = rem_euclid_spec(phase - event_start, tau);
    assert(offset / length * (tau - 0real) == T::pi_spec()) by (nonlinear_arith)
        requires
            length != 0real,
            2real * offset == length,
            tau == 2real * T::pi_spec(),
    ;
}

} // verus!
