//! Concentrated-liquidity positions: tick ranges, tick and price conversion,
//! and the policy that keeps a position around the current tick.

use crate::rounding::{
    fits_i32, lemma_round_halves_monotone, lemma_round_halves_nearest,
    lemma_round_tick_as_halves, lemma_round_tick_nearest, nearest_multiple, round_halves_spec,
    round_tick_spec,
};
use crate::scalar::{abs_spec, to_i32_spec, Scalar, ScalarExt};
use crate::state::StateVector;
use vstd::math::abs;
use vstd::prelude::*;

verus! {

/// Configuration for a CLMM liquidity range.
///
/// In a concentrated-liquidity market maker, liquidity is provided within a
/// price range that is given by two ticks. The price at tick `i` is
/// `base_price * 1.0001^i`.
pub struct CLMMConfig<T> {
    /// Lower tick boundary of the liquidity range
    pub tick_lower: i32,
    /// Upper tick boundary of the liquidity range
    pub tick_upper: i32,
    /// Tick spacing (determines valid tick values)
    pub tick_spacing: i32,
    /// Current price tick
    pub current_tick: i32,
    /// Base price for tick 0
    pub base_price: T,
}

/// A whole number as a tick, where it is an `i32`.
fn as_tick(n: i64) -> (r: Option<i32>)
    ensures
        r is Some <==> fits_i32(n as int),
        r matches Some(tick) ==> tick == n,
{
    if n < i32::MIN as i64 || n > i32::MAX as i64 {
        None
    } else {
        Some(n as i32)
    }
}

impl<T> CLMMConfig<T> {
    /// The invariant of a configuration: the range is not empty and the
    /// spacing is positive.
    pub open spec fn wf(&self) -> bool {
        self.tick_lower < self.tick_upper && self.tick_spacing > 0
    }

    /// Whether the current tick lies in `[tick_lower, tick_upper)`.
    pub open spec fn spec_in_range(&self) -> bool {
        self.tick_lower <= self.current_tick < self.tick_upper
    }

    /// The width of the range, in ticks.
    pub open spec fn width(&self) -> int {
        self.tick_upper - self.tick_lower
    }

    /// The lower bound of a range of the same width that is centred on the
    /// current tick: the multiple of the spacing nearest to the current tick
    /// less half the width, a tie going away from zero.
    pub open spec fn rebalanced_lower(&self) -> int {
        round_halves_spec(2 * self.current_tick - self.width(), self.tick_spacing as int)
    }

    /// The upper bound of a range of the same width that is centred on the
    /// current tick: the multiple of the spacing nearest to the current tick
    /// plus half the width, a tie going away from zero.
    pub open spec fn rebalanced_upper(&self) -> int {
        round_halves_spec(2 * self.current_tick + self.width(), self.tick_spacing as int)
    }

    /// Whether both bounds of the rebalanced range are `i32` values.
    pub open spec fn rebalance_fits(&self) -> bool {
        fits_i32(self.rebalanced_lower()) && fits_i32(self.rebalanced_upper())
    }

    /// Returns true if the current tick is within the liquidity range. The
    /// lower bound belongs to the range, the upper bound does not.
    pub fn is_in_range(&self) -> (r: bool)
        ensures
            r == self.spec_in_range(),
            self.current_tick == self.tick_upper ==> !r,
            self.current_tick == self.tick_lower && self.tick_lower < self.tick_upper ==> r,
    {
        self.current_tick >= self.tick_lower && self.current_tick < self.tick_upper
    }

    /// Rounds a tick to the nearest valid tick based on `tick_spacing`; a tick
    /// half way between two valid ticks goes to the one further from zero.
    /// Returns `None` where the rounded tick is no `i32`.
    pub fn try_round_tick(&self, tick: i32) -> (r: Option<i32>)
        ensures
            r is Some <==> fits_i32(round_tick_spec(tick as int, self.tick_spacing as int)),
            r matches Some(rounded) ==> {
                &&& rounded == round_tick_spec(tick as int, self.tick_spacing as int)
                &&& self.tick_spacing != 0 ==> rounded % self.tick_spacing == 0
                &&& self.tick_spacing != 0 ==> 2 * abs(rounded - tick) <= abs(
                    self.tick_spacing as int,
                )
                &&& self.tick_spacing != 0 && 2 * abs(rounded - tick) == abs(
                    self.tick_spacing as int,
                ) ==> abs(rounded as int) > abs(tick as int)
            },
    {
        proof {
            lemma_round_tick_as_halves(tick as int, self.tick_spacing as int);
            if self.tick_spacing != 0 {
                lemma_round_tick_nearest(tick as int, self.tick_spacing as int);
            }
        }
        as_tick(nearest_multiple(2 * (tick as i64), self.tick_spacing as i64))
    }

    /// Rounds a tick to the nearest valid tick based on `tick_spacing`; a tick
    /// half way between two valid ticks goes to the one further from zero.
    /// The rounded tick must be an `i32`.
    pub fn round_tick(&self, tick: i32) -> (r: i32)
        requires
            fits_i32(round_tick_spec(tick as int, self.tick_spacing as int)),
        ensures
            r == round_tick_spec(tick as int, self.tick_spacing as int),
            self.tick_spacing != 0 ==> r % self.tick_spacing == 0,
            self.tick_spacing != 0 ==> 2 * abs(r - tick) <= abs(self.tick_spacing as int),
            self.tick_spacing != 0 && 2 * abs(r - tick) == abs(self.tick_spacing as int) ==> abs(
                r as int,
            ) > abs(tick as int),
    {
        self.try_round_tick(tick).unwrap()
    }
}

/// The ratio between the prices of two neighbouring ticks: 1.0001.
pub open spec fn tick_base_spec() -> real {
    10001real / 10000real
}

/// The tick of a price that is `ratio` times the base price: the logarithm of
/// the ratio to the base 1.0001, rounded to the nearest integer; zero where
/// that is no `i32`.
pub open spec fn tick_of_ratio<T: ScalarExt>(ratio: real) -> i32 {
    match to_i32_spec(T::ln_spec(ratio) / T::ln_spec(tick_base_spec())) {
        Some(tick) => tick,
        None => 0,
    }
}

/// How far `current` lies from `lower` towards `upper`, as a fraction of the
/// way.
pub open spec fn fraction_of_range(current: int, lower: int, upper: int) -> real {
    (current - lower) as real / (upper - lower) as real
}

/// The tick ratio 1.0001 as a scalar: ten thousand and one ten-thousandths,
/// counted up from one.
fn tick_base<T: Scalar>() -> (r: T)
    ensures
        r@ == tick_base_spec(),
{
    proof {
        T::arithmetic_laws();
    }
    let one = T::one();
    let two = one + one;
    let ten = two * two * two + two;
    let hundred = ten * ten;
    let ten_thousand = hundred * hundred;
    (ten_thousand + one) / ten_thousand
}

impl<T: ScalarExt> CLMMConfig<T> {
    /// Where the current tick lies in the range: zero below `tick_lower`, one
    /// from `tick_upper` on, and the fraction of the way in between.
    pub open spec fn range_position_spec(&self) -> real {
        if self.current_tick < self.tick_lower {
            0real
        } else if self.current_tick >= self.tick_upper {
            1real
        } else {
            fraction_of_range(
                self.current_tick as int,
                self.tick_lower as int,
                self.tick_upper as int,
            )
        }
    }

    /// Whether the scalar type has a value for every tick that
    /// `range_position` converts: the current tick and both bounds where the
    /// current tick is in the range, and none where it is not.
    pub open spec fn can_position(&self) -> bool {
        self.spec_in_range() ==> T::holds_i32(self.current_tick) && T::holds_i32(self.tick_lower)
            && T::holds_i32(self.tick_upper)
    }

    /// The price at a tick: the base price times the tick ratio to the power
    /// of the tick.
    pub open spec fn price_at_tick_spec(&self, tick: i32) -> real {
        self.base_price@ * T::powf_spec(tick_base_spec(), tick as real)
    }

    /// Returns the tick at a given price: `log(price / base_price) /
    /// log(1.0001)`, rounded to the nearest integer, and zero where that is no
    /// `i32`.
    ///
    /// With a base price of zero nothing is known of the result.
    pub fn tick_at_price(&self, price: T) -> (r: i32)
        ensures
            self.base_price@ != 0real ==> r == tick_of_ratio::<T>(price@ / self.base_price@),
    {
        proof {
            T::arithmetic_laws();
            T::ln_positive(tick_base_spec());
        }
        let ratio = price / self.base_price;
        let log_ratio = ratio.ln();
        let log_base = tick_base::<T>().ln();
        let tick = log_ratio / log_base;
        match tick.to_i32() {
            Some(t) => t,
            None => 0,
        }
    }

    /// Returns the price at a given tick, `base_price * 1.0001^tick`, or
    /// `None` where the scalar type has no value for the tick.
    pub fn try_price_at_tick(&self, tick: i32) -> (r: Option<T>)
        ensures
            r is Some <==> T::holds_i32(tick),
            r matches Some(price) ==> price@ == self.price_at_tick_spec(tick),
    {
        proof {
            T::arithmetic_laws();
        }
        match T::from_i32(tick) {
            Some(tick_scalar) => {
                let base = tick_base::<T>();
                Some(self.base_price * base.powf(tick_scalar))
            },
            None => None,
        }
    }

    /// Returns the price at a given tick: `base_price * 1.0001^tick`. The
    /// scalar type must have a value for the tick.
    pub fn price_at_tick(&self, tick: i32) -> (r: T)
        requires
            T::holds_i32(tick),
        ensures
            r@ == self.price_at_tick_spec(tick),
    {
        self.try_price_at_tick(tick).unwrap()
    }

    /// Returns the position within the range as a normalized value `[0, 1]`,
    /// or `None` where the current tick is in the range and the scalar type
    /// has no value for it or for one of the bounds.
    pub fn try_range_position(&self) -> (r: Option<T>)
        ensures
            r is Some <==> self.can_position(),
            r matches Some(position) ==> position@ == self.range_position_spec() && 0real
                <= position@ <= 1real,
    {
        proof {
            T::arithmetic_laws();
        }
        if !self.is_in_range() {
            if self.current_tick < self.tick_lower {
                return Some(T::zero());
            } else {
                return Some(T::one());
            }
        }
        proof {
            lemma_fraction_of_range(
                self.current_tick as int,
                self.tick_lower as int,
                self.tick_upper as int,
            );
        }
        match (
            T::from_i32(self.current_tick),
            T::from_i32(self.tick_lower),
            T::from_i32(self.tick_upper),
        ) {
            (Some(current), Some(lower), Some(upper)) => Some(
                (current - lower) / (upper - lower),
            ),
            _ => None,
        }
    }

    /// Returns the position within the range as a normalized value `[0, 1]`:
    /// exactly zero below the range, exactly one at its upper bound and above,
    /// and the fraction of the way inside. For a current tick inside the range
    /// the scalar type must have a value for it and for both bounds.
    pub fn range_position(&self) -> (r: T)
        requires
            self.can_position(),
        ensures
            r@ == self.range_position_spec(),
            0real <= r@ <= 1real,
    {
        self.try_range_position().unwrap()
    }
}

/// The fraction of the way of a tick through a range lies between zero and
/// one, and does not depend on whether the differences are taken among the
/// integers or among the reals.
pub proof fn lemma_fraction_of_range(current: int, lower: int, upper: int)
    requires
        lower <= current < upper,
    ensures
        (current as real - lower as real) / (upper as real - lower as real) == fraction_of_range(
            current,
            lower,
            upper,
        ),
        0real <= fraction_of_range(current, lower, upper) < 1real,
{
    let n = (current - lower) as real;
    let d = (upper - lower) as real;
    assert(0real <= n / d && n / d < 1real) by (nonlinear_arith)
        requires
            0real <= n < d,
    ;
}

/// Commands for CLMM position management.
///
/// These commands represent actions that can be taken on a concentrated
/// liquidity position based on market conditions and signal analysis.
pub enum CLMMCommand<T> {
    /// Add liquidity at the specified tick range
    AddLiquidity { tick_lower: i32, tick_upper: i32, amount: T },
    /// Remove liquidity from the current position
    RemoveLiquidity { amount: T },
    /// Rebalance position to a new tick range
    Rebalance { new_tick_lower: i32, new_tick_upper: i32 },
    /// Collect accumulated fees
    CollectFees,
    /// Hold current position (no action)
    Hold,
    /// Wait for better conditions
    Wait,
    /// Exit position entirely (emergency)
    Exit,
}

/// Whether the stack has a jolt whose magnitude is above the limit.
pub open spec fn exceeds_jolt_limit<T: Scalar, const D: usize>(
    state: &StateVector<T, D>,
    jolt_limit: T,
) -> bool {
    D > 3 && jolt_limit@ < abs_spec(state.0[3]@)
}

/// The command of the concentrated-liquidity policy. A jolt above the limit
/// comes first; then a current tick outside the range asks for a range of the
/// same width that is centred on it, with its bounds rounded to the spacing;
/// else the position is held.
pub open spec fn clmm_command_spec<T: Scalar, const D: usize>(
    state: &StateVector<T, D>,
    config: &CLMMConfig<T>,
    jolt_limit: T,
) -> CLMMCommand<T> {
    if exceeds_jolt_limit(state, jolt_limit) {
        CLMMCommand::Exit
    } else if !config.spec_in_range() {
        CLMMCommand::Rebalance {
            new_tick_lower: config.rebalanced_lower() as i32,
            new_tick_upper: config.rebalanced_upper() as i32,
        }
    } else {
        CLMMCommand::Hold
    }
}

/// Whether the policy has a command to give: always, but for a range to
/// rebalance whose new bounds are no `i32` values.
pub open spec fn clmm_command_fits<T: Scalar, const D: usize>(
    state: &StateVector<T, D>,
    config: &CLMMConfig<T>,
    jolt_limit: T,
) -> bool {
    !exceeds_jolt_limit(state, jolt_limit) && !config.spec_in_range() ==> config.rebalance_fits()
}

/// The bounds of a rebalanced range lie within half a spacing of the bounds
/// of the centred range of the same width, so the new width differs from the
/// old one by no more than one spacing. Where the configuration keeps its
/// invariant, the new bounds are valid ticks in order.
pub proof fn lemma_rebalance_keeps_width<T>(config: &CLMMConfig<T>)
    requires
        config.tick_spacing != 0,
    ensures
        abs(2 * config.rebalanced_lower() - (2 * config.current_tick - config.width())) <= abs(
            config.tick_spacing as int,
        ),
        abs(2 * config.rebalanced_upper() - (2 * config.current_tick + config.width())) <= abs(
            config.tick_spacing as int,
        ),
        abs(config.rebalanced_upper() - config.rebalanced_lower() - config.width()) <= abs(
            config.tick_spacing as int,
        ),
        config.rebalanced_lower() % (config.tick_spacing as int) == 0,
        config.rebalanced_upper() % (config.tick_spacing as int) == 0,
        config.wf() ==> config.rebalanced_lower() <= config.rebalanced_upper(),
{
    let spacing = config.tick_spacing as int;
    let low = 2 * config.current_tick - config.width();
    let high = 2 * config.current_tick + config.width();
    lemma_round_halves_nearest(low, spacing);
    lemma_round_halves_nearest(high, spacing);
    if config.wf() {
        lemma_round_halves_monotone(low, high, spacing);
    }
}

/// Evaluates the current state and returns a CLMM command, or `None` where
/// the range is to be rebalanced and a new bound is no `i32`.
///
/// Uses jolt (4th derivative of price) as a volatility indicator: a jolt
/// whose magnitude is above `jolt_limit` gives `Exit`, whatever the range.
pub fn try_evaluate_clmm_position<T: Scalar, const D: usize>(
    state: &StateVector<T, D>,
    config: &CLMMConfig<T>,
    jolt_limit: T,
) -> (r: Option<CLMMCommand<T>>)
    ensures
        r is Some <==> clmm_command_fits(state, config, jolt_limit),
        r matches Some(command) ==> command == clmm_command_spec(state, config, jolt_limit),
        exceeds_jolt_limit(state, jolt_limit) ==> r matches Some(CLMMCommand::Exit),
{
    proof {
        T::order_laws();
    }
    // Check for extreme volatility via jolt
    if let Some(j) = state.jolt() {
        if jolt_limit < j.abs() {
            return Some(CLMMCommand::Exit);
        }
    }
    // Check if price is in range
    if !config.is_in_range() {
        // Price has moved out of range: centre a range of the same width on
        // it. The bounds may lie half way between two ticks, so they are
        // worked out in halves of ticks.
        let doubled_center: i64 = 2 * (config.current_tick as i64);
        let width: i64 = config.tick_upper as i64 - config.tick_lower as i64;
        let spacing: i64 = config.tick_spacing as i64;
        let new_lower = as_tick(nearest_multiple(doubled_center - width, spacing));
        let new_upper = as_tick(nearest_multiple(doubled_center + width, spacing));
        return match (new_lower, new_upper) {
            (Some(new_tick_lower), Some(new_tick_upper)) => Some(
                CLMMCommand::Rebalance { new_tick_lower, new_tick_upper },
            ),
            _ => None,
        };
    }
    // Position is in range, hold
    Some(CLMMCommand::Hold)
}

/// Evaluates the current state and returns a CLMM command.
///
/// Uses jolt (4th derivative of price) as a volatility indicator: a jolt
/// whose magnitude is above `jolt_limit` gives `Exit`, whatever the range.
/// The bounds of a rebalanced range must be `i32` values. They lie within
/// half a spacing of the bounds of the centred range of the same width;
/// where the configuration keeps its invariant, they are valid ticks in
/// order.
pub fn evaluate_clmm_position<T: Scalar, const D: usize>(
    state: &StateVector<T, D>,
    config: &CLMMConfig<T>,
    jolt_limit: T,
) -> (r: CLMMCommand<T>)
    requires
        clmm_command_fits(state, config, jolt_limit),
    ensures
        r == clmm_command_spec(state, config, jolt_limit),
        exceeds_jolt_limit(state, jolt_limit) ==> r is Exit,
        config.tick_spacing != 0 ==> (r matches CLMMCommand::Rebalance {
            new_tick_lower,
            new_tick_upper,
        } ==> {
            &&& abs(new_tick_upper - new_tick_lower - config.width()) <= abs(
                config.tick_spacing as int,
            )
            &&& new_tick_lower % config.tick_spacing == 0
            &&& new_tick_upper % config.tick_spacing == 0
            &&& config.wf() ==> new_tick_lower <= new_tick_upper
        }),
{
    proof {
        if config.tick_spacing != 0 {
            lemma_rebalance_keeps_width(config);
        }
    }
    try_evaluate_clmm_position(state, config, jolt_limit).unwrap()
}

} // verus!
