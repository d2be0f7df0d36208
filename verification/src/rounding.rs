//! Rounding to the spacing of the valid ticks.
//!
//! Bounds of a range that is centred on a tick may lie half way between two
//! ticks, so the rounding works on halves of ticks: a whole tick is two
//! halves.

use crate::scalar::round_spec;
use vstd::arithmetic::div_mod::{lemma_fundamental_div_mod, lemma_mod_multiples_basic};
use vstd::math::abs;
use vstd::prelude::*;

verus! {

/// The multiple of `spacing` nearest to the half of `halves`, a tie going
/// away from zero. With a spacing of zero the only multiple is zero.
pub open spec fn round_halves_spec(halves: int, spacing: int) -> int {
    if spacing == 0 {
        0
    } else {
        spacing * round_spec(halves as real / (2 * spacing) as real)
    }
}

/// The multiple of `spacing` nearest to `tick`, a tie going away from zero.
/// With a spacing of zero the only multiple is zero.
pub open spec fn round_tick_spec(tick: int, spacing: int) -> int {
    if spacing == 0 {
        0
    } else {
        spacing * round_spec(tick as real / spacing as real)
    }
}

/// Whether an integer is an `i32`.
pub open spec fn fits_i32(n: int) -> bool {
    i32::MIN <= n <= i32::MAX
}

/// Integer division rounds down as the floor of the real quotient does.
pub proof fn lemma_floor_of_quotient(a: int, b: int)
    requires
        b > 0,
    ensures
        (a as real / b as real).floor() == a / b,
{
    let q = a / b;
    let m = a % b;
    assert(a == b * q + m && 0 <= m < b) by (nonlinear_arith)
        requires
            b > 0,
            q == a / b,
            m == a % b,
    ;
    let (ar, br, qr) = (a as real, b as real, q as real);
    assert(qr <= ar / br && ar / br < qr + 1real) by (nonlinear_arith)
        requires
            b > 0,
            a == b * q + m,
            0 <= m < b,
            ar == a as real,
            br == b as real,
            qr == q as real,
    ;
}

/// Rounding commutes with negation: a tie goes away from zero on both sides.
pub proof fn lemma_round_negated(x: real)
    ensures
        round_spec(-x) == -round_spec(x),
{
}

/// Rounding a tick is rounding its two halves.
pub proof fn lemma_round_tick_as_halves(tick: int, spacing: int)
    ensures
        round_tick_spec(tick, spacing) == round_halves_spec(2 * tick, spacing),
{
    if spacing != 0 {
        assert((2 * tick) as real / (2 * spacing) as real == tick as real / spacing as real)
            by (nonlinear_arith)
            requires
                spacing != 0,
        ;
    }
}

/// `round_halves_spec` in integer arithmetic, for a positive spacing.
pub proof fn lemma_round_halves_by_division(halves: int, spacing: int)
    requires
        spacing > 0,
    ensures
        halves >= 0 ==> round_halves_spec(halves, spacing) == spacing * ((halves + spacing) / (2
            * spacing)),
        halves < 0 ==> round_halves_spec(halves, spacing) == -(spacing * ((spacing - halves) / (2
            * spacing))),
{
    let x = halves as real / (2 * spacing) as real;
    if halves >= 0 {
        lemma_floor_of_quotient(halves + spacing, 2 * spacing);
        assert(x + 1real / 2real == (halves + spacing) as real / (2 * spacing) as real)
            by (nonlinear_arith)
            requires
                spacing > 0,
                x == halves as real / (2 * spacing) as real,
        ;
        assert(x >= 0real) by (nonlinear_arith)
            requires
                spacing > 0,
                halves >= 0,
                x == halves as real / (2 * spacing) as real,
        ;
    } else {
        lemma_floor_of_quotient(spacing - halves, 2 * spacing);
        assert(1real / 2real - x == (spacing - halves) as real / (2 * spacing) as real)
            by (nonlinear_arith)
            requires
                spacing > 0,
                x == halves as real / (2 * spacing) as real,
        ;
        assert(x < 0real) by (nonlinear_arith)
            requires
                spacing > 0,
                halves < 0,
                x == halves as real / (2 * spacing) as real,
        ;
        let q = (spacing - halves) / (2 * spacing);
        assert(spacing * (-q) == -(spacing * q)) by (nonlinear_arith);
    }
}

/// The sign of the spacing makes no difference to the rounded value.
pub proof fn lemma_round_halves_negated_spacing(halves: int, spacing: int)
    ensures
        round_halves_spec(halves, -spacing) == round_halves_spec(halves, spacing),
{
    if spacing != 0 {
        let x = halves as real / (2 * spacing) as real;
        assert(halves as real / (2 * (-spacing)) as real == -x) by (nonlinear_arith)
            requires
                spacing != 0,
                x == halves as real / (2 * spacing) as real,
        ;
        lemma_round_negated(x);
        let k = round_spec(x);
        assert((-spacing) * (-k) == spacing * k) by (nonlinear_arith);
    }
}

/// `lemma_round_halves_nearest` for a positive spacing.
proof fn lemma_round_halves_nearest_positive(halves: int, spacing: int)
    requires
        spacing > 0,
    ensures
        round_halves_spec(halves, spacing) % spacing == 0,
        abs(2 * round_halves_spec(halves, spacing) - halves) <= spacing,
        abs(2 * round_halves_spec(halves, spacing) - halves) == spacing ==> 2 * abs(
            round_halves_spec(halves, spacing),
        ) > abs(halves),
{
    lemma_round_halves_by_division(halves, spacing);
    // the halves, moved half a spacing away from zero, and their quotient
    let n = if halves >= 0 {
        halves + spacing
    } else {
        spacing - halves
    };
    let q = n / (2 * spacing);
    let m = n % (2 * spacing);
    assert(n == (2 * spacing) * q + m && 0 <= m < 2 * spacing) by (nonlinear_arith)
        requires
            spacing > 0,
            q == n / (2 * spacing),
            m == n % (2 * spacing),
    ;
    assert((2 * spacing) * q == 2 * (spacing * q)) by (nonlinear_arith);
    assert(q >= 0) by (nonlinear_arith)
        requires
            spacing > 0,
            n >= 0,
            n == (2 * spacing) * q + m,
            m < 2 * spacing,
    ;
    assert(spacing * q >= 0) by (nonlinear_arith)
        requires
            spacing > 0,
            q >= 0,
    ;
    if halves >= 0 {
        assert(q * spacing == spacing * q) by (nonlinear_arith);
        lemma_mod_multiples_basic(q, spacing);
    } else {
        assert((-q) * spacing == -(spacing * q)) by (nonlinear_arith);
        lemma_mod_multiples_basic(-q, spacing);
    }
}

/// A rounded value is a whole multiple of the spacing, lies no further than
/// half a spacing from the half of `halves`, and lies away from zero where
/// that half is exactly half way between two multiples.
pub proof fn lemma_round_halves_nearest(halves: int, spacing: int)
    requires
        spacing != 0,
    ensures
        round_halves_spec(halves, spacing) % spacing == 0,
        abs(2 * round_halves_spec(halves, spacing) - halves) <= abs(spacing),
        abs(2 * round_halves_spec(halves, spacing) - halves) == abs(spacing) ==> 2 * abs(
            round_halves_spec(halves, spacing),
        ) > abs(halves),
{
    if spacing > 0 {
        lemma_round_halves_nearest_positive(halves, spacing);
    } else {
        lemma_round_halves_negated_spacing(halves, spacing);
        lemma_round_halves_nearest_positive(halves, -spacing);
        let r = round_halves_spec(halves, spacing);
        assert(r % spacing == 0) by (nonlinear_arith)
            requires
                spacing < 0,
                r % (-spacing) == 0,
        ;
    }
}

/// A rounded tick is a whole multiple of the spacing, lies no further than
/// half a spacing from the tick, and lies away from zero where the tick is
/// exactly half way between two multiples.
pub proof fn lemma_round_tick_nearest(tick: int, spacing: int)
    requires
        spacing != 0,
    ensures
        round_tick_spec(tick, spacing) % spacing == 0,
        2 * abs(round_tick_spec(tick, spacing) - tick) <= abs(spacing),
        2 * abs(round_tick_spec(tick, spacing) - tick) == abs(spacing) ==> abs(
            round_tick_spec(tick, spacing),
        ) > abs(tick),
{
    lemma_round_tick_as_halves(tick, spacing);
    lemma_round_halves_nearest(2 * tick, spacing);
}

/// Rounding to a positive spacing keeps the order of two values.
pub proof fn lemma_round_halves_monotone(low: int, high: int, spacing: int)
    requires
        spacing > 0,
        low <= high,
    ensures
        round_halves_spec(low, spacing) <= round_halves_spec(high, spacing),
{
    lemma_round_halves_nearest(low, spacing);
    lemma_round_halves_nearest(high, spacing);
    let a = round_halves_spec(low, spacing);
    let b = round_halves_spec(high, spacing);
    if a > b {
        // two multiples of the spacing that differ lie at least one spacing apart
        lemma_fundamental_div_mod(a, spacing);
        lemma_fundamental_div_mod(b, spacing);
        let (qa, qb) = (a / spacing, b / spacing);
        assert(a == spacing * qa && b == spacing * qb);
        assert(qa > qb) by (nonlinear_arith)
            requires
                spacing > 0,
                spacing * qa > spacing * qb,
        ;
        assert(a - b >= spacing) by (nonlinear_arith)
            requires
                spacing > 0,
                qa >= qb + 1,
                a == spacing * qa,
                b == spacing * qb,
        ;
        // so both values are exactly half way, and the ties went the wrong way round
        assert(2 * a - low == spacing && high - 2 * b == spacing && low == high);
    }
}

/// The multiple of `spacing` nearest to the half of `halves`, computed in
/// whole numbers.
pub(crate) fn nearest_multiple(halves: i64, spacing: i64) -> (r: i64)
    requires
        i32::MIN <= spacing <= i32::MAX,
        8 * i32::MIN <= halves <= 8 * i32::MAX,
    ensures
        r == round_halves_spec(halves as int, spacing as int),
{
    if spacing == 0 {
        return 0;
    }
    let step: i64 = if spacing < 0 {
        -spacing
    } else {
        spacing
    };
    proof {
        if spacing < 0 {
            lemma_round_halves_negated_spacing(halves as int, spacing as int);
        }
        lemma_round_halves_by_division(halves as int, step as int);
        lemma_round_halves_nearest(halves as int, step as int);
    }
    if halves >= 0 {
        let quotient: i64 = (halves + step) / (2 * step);
        step * quotient
    } else {
        let quotient: i64 = (step - halves) / (2 * step);
        -(step * quotient)
    }
}

} // verus!
