//! The cyclic event-pulse engine: a smooth activation signal for an event
//! window on a circle of phases.
//!
//! The circle has circumference `tau`. An event window `[event_start,
//! event_end)` with its two blend margins cuts the circle into a blend-in
//! region, the event region, a blend-out region and the neutral rest. The
//! pulse is a point `(x, y)`: the neutral point `(1, 0)` outside the window,
//! the phase turned into an angle inside it, and a quarter-turn rotation
//! between the two across each margin.

use crate::range::{
    lemma_modular_length_nonzero, map_modular_spec, modular_length, range_map_modular,
};
use crate::scalar::{rem_euclid_spec, FloatMath, Scalar};
use vstd::prelude::*;

verus! {

/// The circumference of the circle of phases: a full turn.
pub open spec fn tau_spec<T: FloatMath>() -> real {
    2real * T::pi_spec()
}

/// The quarter turn.
pub open spec fn quarter_spec<T: FloatMath>() -> real {
    T::pi_spec() / 2real
}

/// A phase reduced into `[0, tau)`.
pub open spec fn wrap_spec<T: FloatMath>(phase: real) -> real {
    rem_euclid_spec(phase, tau_spec::<T>())
}

/// `a` turned towards `b` by the angle `theta`: `a` at the zero angle, `b` at
/// the quarter turn.
pub open spec fn cycle_interpolate_spec<T: FloatMath>(theta: real, a: real, b: real) -> real {
    a * T::cos_spec(theta) + b * T::sin_spec(theta)
}

/// Whether `value` lies in the interval `[start, end)` of the circle. With
/// `start` after `end` the interval passes through the origin.
pub open spec fn in_modular_range_spec(value: real, start: real, end: real) -> bool {
    if start <= end {
        start <= value < end
    } else {
        value < end || start <= value
    }
}

/// The four regions into which an event window cuts the circle.
pub enum PulseRegion {
    /// From the start of the outer margin to the end of the inner one.
    BlendIn,
    /// The core of the event.
    Event,
    /// From the start of the closing inner margin to the end of the outer one.
    BlendOut,
    /// Everything else.
    Neutral,
}

/// Where the blend-in starts.
pub open spec fn blend_in_start<T: FloatMath>(event_start: real, blend_outer: real) -> real {
    wrap_spec::<T>(event_start - blend_outer)
}

/// Where the blend-in ends and the core of the event starts.
pub open spec fn blend_in_end<T: FloatMath>(event_start: real, blend_inner: real) -> real {
    wrap_spec::<T>(event_start + blend_inner)
}

/// Where the core of the event ends and the blend-out starts.
pub open spec fn blend_out_start<T: FloatMath>(event_end: real, blend_inner: real) -> real {
    wrap_spec::<T>(event_end - blend_inner)
}

/// Where the blend-out ends.
pub open spec fn blend_out_end<T: FloatMath>(event_end: real, blend_outer: real) -> real {
    wrap_spec::<T>(event_end + blend_outer)
}

/// The region that a phase falls in. Where regions overlap the blend-in wins
/// over the event, and the event over the blend-out.
pub open spec fn pulse_region<T: FloatMath>(
    phase: real,
    event_start: real,
    event_end: real,
    blend_outer: real,
    blend_inner: real,
) -> PulseRegion {
    let ta = blend_in_start::<T>(event_start, blend_outer);
    let tb = blend_in_end::<T>(event_start, blend_inner);
    let tc = blend_out_start::<T>(event_end, blend_inner);
    let td = blend_out_end::<T>(event_end, blend_outer);
    if in_modular_range_spec(phase, ta, tb) {
        PulseRegion::BlendIn
    } else if in_modular_range_spec(phase, tb, tc) {
        PulseRegion::Event
    } else if in_modular_range_spec(phase, tc, td) {
        PulseRegion::BlendOut
    } else {
        PulseRegion::Neutral
    }
}

/// The angle of a phase within the event window: the window `[event_start,
/// event_end)` stretched over the full turn.
pub open spec fn event_angle<T: FloatMath>(
    phase: real,
    event_start: real,
    event_end: real,
) -> real {
    map_modular_spec(phase, tau_spec::<T>(), event_start, event_end, 0real, tau_spec::<T>())
}

/// The point at an angle: its cosine, then its sine.
pub open spec fn point_at<T: FloatMath>(angle: real) -> (real, real) {
    (T::cos_spec(angle), T::sin_spec(angle))
}

/// The neutral point turned towards `target` by `theta`.
pub open spec fn blend_in_point<T: FloatMath>(theta: real, target: (real, real)) -> (real, real) {
    (
        cycle_interpolate_spec::<T>(theta, 1real, target.0),
        cycle_interpolate_spec::<T>(theta, 0real, target.1),
    )
}

/// `target` turned towards the neutral point by `theta`.
pub open spec fn blend_out_point<T: FloatMath>(theta: real, target: (real, real)) -> (real, real) {
    (
        cycle_interpolate_spec::<T>(theta, target.0, 1real),
        cycle_interpolate_spec::<T>(theta, target.1, 0real),
    )
}

/// The pulse of an event window at a phase.
pub open spec fn event_pulse_spec<T: FloatMath>(
    phase: real,
    event_start: real,
    event_end: real,
    blend_outer: real,
    blend_inner: real,
) -> (real, real) {
    let tau = tau_spec::<T>();
    let ta = blend_in_start::<T>(event_start, blend_outer);
    let tb = blend_in_end::<T>(event_start, blend_inner);
    let tc = blend_out_start::<T>(event_end, blend_inner);
    let td = blend_out_end::<T>(event_end, blend_outer);
    match pulse_region::<T>(phase, event_start, event_end, blend_outer, blend_inner) {
        PulseRegion::BlendIn => blend_in_point::<T>(
            map_modular_spec(phase, tau, ta, tb, 0real, quarter_spec::<T>()),
            point_at::<T>(event_angle::<T>(tb, event_start, event_end)),
        ),
        PulseRegion::Event => point_at::<T>(event_angle::<T>(phase, event_start, event_end)),
        PulseRegion::BlendOut => blend_out_point::<T>(
            map_modular_spec(phase, tau, tc, td, 0real, quarter_spec::<T>()),
            point_at::<T>(event_angle::<T>(tc, event_start, event_end)),
        ),
        PulseRegion::Neutral => (1real, 0real),
    }
}

/// Cyclic interpolation between two signals.
///
/// Over a full turn of `phase` the result runs from the primary signal to the
/// alternative one, on to the negated primary and the negated alternative.
/// Over the first quarter turn it is a rotation from the one to the other.
pub fn cycle_interpolate<T: Scalar>(phase: T, primary_signal: T, alternative_signal: T) -> (r: T)
    ensures
        r@ == cycle_interpolate_spec::<T>(phase@, primary_signal@, alternative_signal@),
{
    proof {
        T::arithmetic_laws();
    }
    let (s, c) = phase.sin_cos();
    primary_signal * c + alternative_signal * s
}

/// Returns true if `value` is inside the modular interval `[start, end)`.
pub fn in_modular_range<T: Scalar>(value: T, start: T, end: T) -> (r: bool)
    ensures
        r == in_modular_range_spec(value@, start@, end@),
{
    proof {
        T::order_laws();
    }
    if start <= end {
        // normal interval
        start <= value && value < end
    } else {
        // wrapped interval
        value < end || start <= value
    }
}

/// Generates a smooth pulse signal for event-based blending.
///
/// `phase`, `event_start` and `event_end` are phases on the circle of
/// circumference `tau`. Returns the point `(x, y)` of the pulse. In the
/// neutral region this is `(1, 0)` whatever the window. Elsewhere the window
/// must have a length on the circle: with `event_end` a whole number of turns
/// from `event_start` nothing is known of the result. Without blend margins
/// the pulse is `(1, 0)` outside the window and the remap of the phase inside
/// it.
pub fn event_pulse<T: Scalar>(
    phase: T,
    event_start: T,
    event_end: T,
    blend_outer: T,
    blend_inner: T,
) -> (r: (T, T))
    ensures
        pulse_region::<T>(phase@, event_start@, event_end@, blend_outer@, blend_inner@)
            is Neutral ==> r.0@ == 1real && r.1@ == 0real,
        modular_length(tau_spec::<T>(), event_start@, event_end@) != 0real ==> (r.0@, r.1@)
            == event_pulse_spec::<T>(
            phase@,
            event_start@,
            event_end@,
            blend_outer@,
            blend_inner@,
        ),
        blend_outer@ == 0real && blend_inner@ == 0real && !in_modular_range_spec(
            phase@,
            wrap_spec::<T>(event_start@),
            wrap_spec::<T>(event_end@),
        ) ==> r.0@ == 1real && r.1@ == 0real,
        blend_outer@ == 0real && blend_inner@ == 0real && in_modular_range_spec(
            phase@,
            wrap_spec::<T>(event_start@),
            wrap_spec::<T>(event_end@),
        ) && modular_length(tau_spec::<T>(), event_start@, event_end@) != 0real ==> (r.0@, r.1@)
            == point_at::<T>(event_angle::<T>(phase@, event_start@, event_end@)),
{
    proof {
        T::arithmetic_laws();
        T::trig_laws();
        if blend_outer@ == 0real && blend_inner@ == 0real {
            lemma_pulse_without_blend::<T>(phase@, event_start@, event_end@);
        }
        crate::scalar::lemma_rem_euclid_range(event_start@ - blend_outer@, tau_spec::<T>());
        crate::scalar::lemma_rem_euclid_range(event_start@ + blend_inner@, tau_spec::<T>());
        crate::scalar::lemma_rem_euclid_range(event_end@ - blend_inner@, tau_spec::<T>());
        crate::scalar::lemma_rem_euclid_range(event_end@ + blend_outer@, tau_spec::<T>());
    }
    // neutral signal
    let (ns, nc) = T::zero().sin_cos();

    // blending start and end points
    let ta = (event_start - blend_outer).rem_euclid(&T::tau());
    let tb = (event_start + blend_inner).rem_euclid(&T::tau());
    let tc = (event_end - blend_inner).rem_euclid(&T::tau());
    let td = (event_end + blend_outer).rem_euclid(&T::tau());

    // blending phase
    let in_blend_in = in_modular_range(phase, ta, tb);
    let in_event = in_modular_range(phase, tb, tc);
    let in_blend_out = in_modular_range(phase, tc, td);

    let (es, ec) = if in_blend_in {
        proof {
            lemma_modular_length_nonzero(tau_spec::<T>(), ta@, tb@);
        }
        let blend_phase = range_map_modular(phase, T::tau(), ta, tb, T::zero(), T::frac_pi_2());
        let blend_target = range_map_modular(
            tb,
            T::tau(),
            event_start,
            event_end,
            T::zero(),
            T::tau(),
        );
        let (target_sin, target_cos) = blend_target.sin_cos();
        (
            cycle_interpolate(blend_phase, ns, target_sin),
            cycle_interpolate(blend_phase, nc, target_cos),
        )
    } else if in_event {
        let event_phase = range_map_modular(
            phase,
            T::tau(),
            event_start,
            event_end,
            T::zero(),
            T::tau(),
        );
        event_phase.sin_cos()
    } else if in_blend_out {
        proof {
            lemma_modular_length_nonzero(tau_spec::<T>(), tc@, td@);
        }
        let blend_phase = range_map_modular(phase, T::tau(), tc, td, T::zero(), T::frac_pi_2());
        let blend_target = range_map_modular(
            tc,
            T::tau(),
            event_start,
            event_end,
            T::zero(),
            T::tau(),
        );
        let (target_sin, target_cos) = blend_target.sin_cos();
        (
            cycle_interpolate(blend_phase, target_sin, ns),
            cycle_interpolate(blend_phase, target_cos, nc),
        )
    } else {
        (ns, nc)
    };
    (ec, es)
}

/// An interval of the circle that starts where it ends holds no phase.
pub proof fn lemma_empty_modular_range(value: real, start: real)
    ensures
        !in_modular_range_spec(value, start, start),
{
}

/// An interval of the circle is half open: it does not hold its end, and it
/// holds its start unless it is empty.
pub proof fn lemma_modular_range_half_open(start: real, end: real)
    ensures
        !in_modular_range_spec(end, start, end),
        start != end ==> in_modular_range_spec(start, start, end),
{
}

/// The interpolation gives the first signal at the zero angle and the second
/// at the quarter turn.
pub proof fn lemma_cycle_interpolate_ends<T: FloatMath>(a: real, b: real)
    ensures
        cycle_interpolate_spec::<T>(0real, a, b) == a,
        cycle_interpolate_spec::<T>(quarter_spec::<T>(), a, b) == b,
{
    T::trig_laws();
    assert(a * 1real == a && b * 0real == 0real) by (nonlinear_arith);
    assert(a * 0real == 0real && b * 1real == b) by (nonlinear_arith);
}

/// Without blend margins the pulse is the neutral point `(1, 0)` for a phase
/// outside the window and the remap of the phase for one inside it. The
/// window is taken between its two bounds reduced into `[0, tau)`; bounds
/// that lie there already are taken as they are.
pub proof fn lemma_pulse_without_blend<T: FloatMath>(
    phase: real,
    event_start: real,
    event_end: real,
)
    ensures
        event_pulse_spec::<T>(phase, event_start, event_end, 0real, 0real)
            == (if in_modular_range_spec(
            phase,
            wrap_spec::<T>(event_start),
            wrap_spec::<T>(event_end),
        ) {
            point_at::<T>(event_angle::<T>(phase, event_start, event_end))
        } else {
            (1real, 0real)
        }),
        0real <= event_start < tau_spec::<T>() && 0real <= event_end < tau_spec::<T>()
            ==> event_pulse_spec::<T>(phase, event_start, event_end, 0real, 0real)
            == (if in_modular_range_spec(phase, event_start, event_end) {
            point_at::<T>(event_angle::<T>(phase, event_start, event_end))
        } else {
            (1real, 0real)
        }),
{
    let ta = blend_in_start::<T>(event_start, 0real);
    let tb = blend_in_end::<T>(event_start, 0real);
    let tc = blend_out_start::<T>(event_end, 0real);
    let td = blend_out_end::<T>(event_end, 0real);
    assert(ta == wrap_spec::<T>(event_start) && tb == ta);
    assert(tc == wrap_spec::<T>(event_end) && td == tc);
    lemma_empty_modular_range(phase, ta);
    lemma_empty_modular_range(phase, tc);
    if 0real <= event_start < tau_spec::<T>() && 0real <= event_end < tau_spec::<T>() {
        crate::scalar::lemma_rem_euclid_small(event_start, tau_spec::<T>());
        crate::scalar::lemma_rem_euclid_small(event_end, tau_spec::<T>());
    }
}

} // verus!
