use joltshark::{
    evaluate_clmm_position, evaluate_grid_command, try_evaluate_clmm_position, CLMMCommand,
    CLMMConfig, FloatMath, GridCommand, GridConfig, Scalar, ScalarExt, StateVector, Value,
};
use num_traits::{Euclid, Float, FloatConst, FromPrimitive, One, Signed, ToPrimitive, Zero};
use std::ops::{Add, Div, Mul, Sub};

/// A double-precision scalar for the tests, computing through `num_traits`.
#[derive(Clone, Copy, Debug, PartialEq, PartialOrd)]
struct F(f64);

impl Add for F {
    type Output = F;
    fn add(self, rhs: F) -> F {
        F(self.0 + rhs.0)
    }
}

impl Sub for F {
    type Output = F;
    fn sub(self, rhs: F) -> F {
        F(self.0 - rhs.0)
    }
}

impl Mul for F {
    type Output = F;
    fn mul(self, rhs: F) -> F {
        F(self.0 * rhs.0)
    }
}

impl Div for F {
    type Output = F;
    fn div(self, rhs: F) -> F {
        F(self.0 / rhs.0)
    }
}

// The members that return a `Value`, and the laws, are specification only:
// nothing calls them when the program runs.
impl FloatMath for F {
    fn view(self) -> Value {
        unreachable!()
    }
    fn sin_spec(_x: Value) -> Value {
        unreachable!()
    }
    fn cos_spec(_x: Value) -> Value {
        unreachable!()
    }
    fn pi_spec() -> Value {
        unreachable!()
    }
    fn trig_laws() {}
    fn trig_range(_x: Value) {}
    fn trig_lipschitz(_x: Value, _y: Value) {}
    fn cos(self) -> F {
        F(Float::cos(self.0))
    }
    fn frac_pi_2() -> F {
        F(FloatConst::FRAC_PI_2())
    }
    fn max(self, other: F) -> F {
        F(Float::max(self.0, other.0))
    }
    fn min(self, other: F) -> F {
        F(Float::min(self.0, other.0))
    }
    fn pi() -> F {
        F(FloatConst::PI())
    }
    fn sin(self) -> F {
        F(Float::sin(self.0))
    }
    fn sin_cos(self) -> (F, F) {
        let (s, c) = Float::sin_cos(self.0);
        (F(s), F(c))
    }
    fn tau() -> F {
        F(FloatConst::TAU())
    }
}

impl Scalar for F {
    fn arithmetic_laws() {}
    fn order_laws() {}
    fn zero() -> F {
        F(Zero::zero())
    }
    fn one() -> F {
        F(One::one())
    }
    fn abs(&self) -> F {
        F(Signed::abs(&self.0))
    }
    fn rem_euclid(&self, v: &F) -> F {
        F(Euclid::rem_euclid(&self.0, &v.0))
    }
}

impl ScalarExt for F {
    fn holds_i32(_n: i32) -> bool {
        unreachable!()
    }
    fn ln_spec(_x: Value) -> Value {
        unreachable!()
    }
    fn powf_spec(_x: Value, _n: Value) -> Value {
        unreachable!()
    }
    fn ln_positive(_x: Value) {}
    fn from_i32(n: i32) -> Option<F> {
        FromPrimitive::from_i32(n).map(F)
    }
    fn to_i32(self) -> Option<i32> {
        ToPrimitive::to_i32(&Float::round(self.0))
    }
    fn ln(self) -> F {
        F(Float::ln(self.0))
    }
    fn powf(self, n: F) -> F {
        F(Float::powf(self.0, n.0))
    }
}

fn config(
    tick_lower: i32,
    tick_upper: i32,
    tick_spacing: i32,
    current_tick: i32,
) -> CLMMConfig<F> {
    CLMMConfig { tick_lower, tick_upper, tick_spacing, current_tick, base_price: F(1.0) }
}

fn grid() -> GridConfig<F> {
    GridConfig {
        base_price: F(100.0),
        upper_bound: F(120.0),
        lower_bound: F(80.0),
        spacing: F(2.5),
    }
}

fn stack(jolt: f64) -> StateVector<F, 4> {
    StateVector([F(101.0), F(0.5), F(-0.25), F(jolt)])
}

#[test]
fn test_clmm_config_in_range() {
    let config = CLMMConfig {
        tick_lower: -1000,
        tick_upper: 1000,
        tick_spacing: 10,
        current_tick: 0,
        base_price: 1.0_f64,
    };
    assert!(config.is_in_range());
}

#[test]
fn test_clmm_config_out_of_range() {
    let config = CLMMConfig {
        tick_lower: -1000,
        tick_upper: 1000,
        tick_spacing: 10,
        current_tick: 1500,
        base_price: 1.0_f64,
    };
    assert!(!config.is_in_range());
}

#[test]
fn test_clmm_range_position() {
    let config = CLMMConfig {
        tick_lower: 0,
        tick_upper: 100,
        tick_spacing: 10,
        current_tick: 50,
        base_price: F(1.0_f64),
    };
    let position = config.range_position();
    assert!((position.0 - 0.5).abs() < 0.001);
}

#[test]
fn test_clmm_round_tick() {
    let config = CLMMConfig {
        tick_lower: 0,
        tick_upper: 100,
        tick_spacing: 10,
        current_tick: 0,
        base_price: 1.0_f64,
    };
    assert_eq!(config.round_tick(15), 20);
    assert_eq!(config.round_tick(14), 10);
    assert_eq!(config.round_tick(25), 30);
}

#[test]
fn range_is_half_open() {
    assert!(config(-50, 50, 10, -50).is_in_range());
    assert!(config(-50, 50, 10, 49).is_in_range());
    assert!(!config(-50, 50, 10, 50).is_in_range());
    assert!(!config(-50, 50, 10, -51).is_in_range());
}

#[test]
fn round_tick_goes_to_the_nearest_multiple() {
    let c = config(0, 100, 10, 0);
    let cases = [(0, 0), (4, 0), (5, 10), (6, 10), (10, 10), (96, 100), (-4, 0), (-6, -10)];
    for (tick, rounded) in cases {
        assert_eq!(c.round_tick(tick), rounded);
    }
    let c = config(0, 100, 3, 0);
    for (tick, rounded) in [(1, 0), (2, 3), (4, 3), (5, 6), (-1, 0), (-2, -3), (-4, -3)] {
        assert_eq!(c.round_tick(tick), rounded);
    }
    let c = config(0, 100, 1, 0);
    for tick in [-7, 0, 1, 12345] {
        assert_eq!(c.round_tick(tick), tick);
    }
}

#[test]
fn round_tick_sends_a_tie_away_from_zero() {
    let c = config(0, 100, 10, 0);
    assert_eq!(c.round_tick(-15), -20);
    assert_eq!(c.round_tick(-25), -30);
    assert_eq!(c.round_tick(-5), -10);
    assert_eq!(c.round_tick(35), 40);
    let c = config(0, 100, 4, 0);
    assert_eq!(c.round_tick(2), 4);
    assert_eq!(c.round_tick(-2), -4);
    assert_eq!(c.round_tick(6), 8);
}

#[test]
fn round_tick_ignores_the_sign_of_the_spacing() {
    let c = config(0, 100, -10, 0);
    for (tick, rounded) in [(15, 20), (14, 10), (25, 30), (-15, -20), (-14, -10), (0, 0)] {
        assert_eq!(c.round_tick(tick), rounded);
    }
}

#[test]
fn round_tick_with_no_spacing_is_zero() {
    let c = config(0, 100, 0, 0);
    for tick in [15, 0, -15, i32::MAX, i32::MIN] {
        assert_eq!(c.round_tick(tick), 0);
    }
}

#[test]
fn round_tick_stays_within_half_a_spacing() {
    for spacing in [1, 2, 3, 7, 10, 60] {
        let c = config(0, 100, spacing, 0);
        for tick in -200..200 {
            let rounded = c.round_tick(tick);
            assert_eq!(rounded % spacing, 0);
            assert!(2 * (rounded - tick).abs() <= spacing);
        }
    }
}

#[test]
fn round_tick_near_the_ends_of_the_integers() {
    let c = config(0, 100, 10, 0);
    assert_eq!(c.round_tick(2147483644), 2147483640);
    assert_eq!(c.round_tick(-2147483644), -2147483640);
    let c = config(0, 100, 1, 0);
    assert_eq!(c.round_tick(i32::MAX), i32::MAX);
    assert_eq!(c.round_tick(i32::MIN), i32::MIN);
}

#[test]
fn range_position_is_exact_outside_the_range() {
    assert_eq!(config(0, 100, 10, -1).range_position(), F(0.0));
    assert_eq!(config(0, 100, 10, -5000).range_position(), F(0.0));
    assert_eq!(config(0, 100, 10, 100).range_position(), F(1.0));
    assert_eq!(config(0, 100, 10, 101).range_position(), F(1.0));
}

#[test]
fn range_position_is_linear_inside_the_range() {
    assert_eq!(config(0, 100, 10, 0).range_position(), F(0.0));
    assert_eq!(config(0, 100, 10, 25).range_position(), F(0.25));
    assert_eq!(config(0, 100, 10, 50).range_position(), F(0.5));
    assert_eq!(config(-1000, 1000, 10, 500).range_position(), F(0.75));
    assert_eq!(config(-40, -20, 10, -25).range_position(), F(0.75));
}

#[test]
fn price_at_tick_is_a_power_of_the_tick_ratio() {
    let c = config(0, 100, 10, 0);
    assert_eq!(c.price_at_tick(0), F(1.0));
    assert!((c.price_at_tick(1).0 - 1.0001).abs() < 1.0e-12);
    assert!((c.price_at_tick(2).0 - 1.00020001).abs() < 1.0e-12);
    assert!((c.price_at_tick(-1).0 - 1.0 / 1.0001).abs() < 1.0e-12);
    assert!((c.price_at_tick(100).0 - 1.0001_f64.powi(100)).abs() < 1.0e-12);
    let doubled = CLMMConfig { base_price: F(2.0), ..config(0, 100, 10, 0) };
    assert!((doubled.price_at_tick(1).0 - 2.0002).abs() < 1.0e-12);
}

#[test]
fn checked_conversions_agree_with_the_plain_ones() {
    let c = config(0, 100, 10, 25);
    assert_eq!(c.try_range_position(), Some(F(0.25)));
    assert_eq!(c.try_price_at_tick(0), Some(F(1.0)));
    assert_eq!(c.try_price_at_tick(17), Some(c.price_at_tick(17)));
}

#[test]
fn tick_at_price_is_the_rounded_logarithm() {
    let c = config(0, 100, 10, 0);
    assert_eq!(c.tick_at_price(F(1.0)), 0);
    assert_eq!(c.tick_at_price(F(1.0001)), 1);
    assert_eq!(c.tick_at_price(F(1.0001_f64.powi(250))), 250);
    assert_eq!(c.tick_at_price(F(1.0001_f64.powi(-250))), -250);
    // between two ticks the nearer one is taken
    assert_eq!(c.tick_at_price(F(1.0001_f64.powf(10.4))), 10);
    assert_eq!(c.tick_at_price(F(1.0001_f64.powf(10.6))), 11);
    assert_eq!(c.tick_at_price(F(1.0001_f64.powf(-10.6))), -11);
    let doubled = CLMMConfig { base_price: F(2.0), ..config(0, 100, 10, 0) };
    assert_eq!(doubled.tick_at_price(F(2.0002)), 1);
}

#[test]
fn tick_at_price_gives_zero_where_there_is_no_tick() {
    let c = config(0, 100, 10, 0);
    // the logarithm of zero, of a negative ratio, and of a price beyond all bounds
    assert_eq!(c.tick_at_price(F(0.0)), 0);
    assert_eq!(c.tick_at_price(F(-1.0)), 0);
    assert_eq!(c.tick_at_price(F(f64::INFINITY)), 0);
    let empty = CLMMConfig { base_price: F(0.0), ..config(0, 100, 10, 0) };
    assert_eq!(empty.tick_at_price(F(1.0)), 0);
}

#[test]
fn tick_and_price_convert_back_and_forth() {
    let c = config(0, 100, 10, 0);
    for tick in [-5000, -1, 0, 1, 77, 5000] {
        assert_eq!(c.tick_at_price(c.price_at_tick(tick)), tick);
    }
}

#[test]
fn clmm_policy_holds_in_range() {
    let command = evaluate_clmm_position(&stack(0.0), &config(-1000, 1000, 10, 0), F(1.0));
    assert!(matches!(command, CLMMCommand::Hold));
    let command = evaluate_clmm_position(&stack(0.0), &config(-1000, 1000, 10, -1000), F(1.0));
    assert!(matches!(command, CLMMCommand::Hold));
}

#[test]
fn clmm_policy_rebalances_around_the_current_tick() {
    let command = evaluate_clmm_position(&stack(0.0), &config(-1000, 1000, 10, 1500), F(1.0));
    assert!(matches!(
        command,
        CLMMCommand::Rebalance { new_tick_lower: 500, new_tick_upper: 2500 }
    ));
    // the upper bound itself is outside the range
    let command = evaluate_clmm_position(&stack(0.0), &config(-1000, 1000, 10, 1000), F(1.0));
    assert!(matches!(
        command,
        CLMMCommand::Rebalance { new_tick_lower: 0, new_tick_upper: 2000 }
    ));
    // the centred range runs from 147.5 to 252.5, which round to the spacing
    let command = evaluate_clmm_position(&stack(0.0), &config(0, 105, 10, 200), F(1.0));
    assert!(matches!(
        command,
        CLMMCommand::Rebalance { new_tick_lower: 150, new_tick_upper: 250 }
    ));
    let command = evaluate_clmm_position(&stack(0.0), &config(0, 100, 10, -35), F(1.0));
    assert!(matches!(
        command,
        CLMMCommand::Rebalance { new_tick_lower: -90, new_tick_upper: 20 }
    ));
}

#[test]
fn clmm_policy_keeps_an_odd_width() {
    // the centred range runs from 149.5 to 250.5; both ties go away from zero
    let command = evaluate_clmm_position(&stack(0.0), &config(0, 101, 1, 200), F(1.0));
    assert!(matches!(
        command,
        CLMMCommand::Rebalance { new_tick_lower: 150, new_tick_upper: 251 }
    ));
    let command = evaluate_clmm_position(&stack(0.0), &config(0, 7, 1, 20), F(1.0));
    assert!(matches!(
        command,
        CLMMCommand::Rebalance { new_tick_lower: 17, new_tick_upper: 24 }
    ));
    // below zero the ties go down: from -203.5 to -196.5
    let command = evaluate_clmm_position(&stack(0.0), &config(0, 7, 1, -200), F(1.0));
    assert!(matches!(
        command,
        CLMMCommand::Rebalance { new_tick_lower: -204, new_tick_upper: -197 }
    ));
    // an odd width and a spacing: 147.5 and 252.5 round to the nearest tens
    let command = evaluate_clmm_position(&stack(0.0), &config(0, 105, 10, 200), F(1.0));
    assert!(matches!(
        command,
        CLMMCommand::Rebalance { new_tick_lower: 150, new_tick_upper: 250 }
    ));
    // the half tick decides: 144.5 rounds down to 140, 145 up to 150
    let command = evaluate_clmm_position(&stack(0.0), &config(0, 111, 10, 200), F(1.0));
    assert!(matches!(
        command,
        CLMMCommand::Rebalance { new_tick_lower: 140, new_tick_upper: 260 }
    ));
    let command = evaluate_clmm_position(&stack(0.0), &config(0, 110, 10, 200), F(1.0));
    assert!(matches!(
        command,
        CLMMCommand::Rebalance { new_tick_lower: 150, new_tick_upper: 260 }
    ));
}

#[test]
fn clmm_policy_keeps_the_width_with_a_spacing_of_one() {
    for width in 1..40 {
        for current in [width, width + 1, 500, -1, -2 * width, -500] {
            let command =
                evaluate_clmm_position(&stack(0.0), &config(0, width, 1, current), F(1.0));
            match command {
                CLMMCommand::Rebalance { new_tick_lower, new_tick_upper } => {
                    // a centre within half a width of zero has one bound on
                    // either side of it, and both ties go outwards
                    let straddles = 2 * current.abs() < width;
                    let expected = if width % 2 == 1 && straddles { width + 1 } else { width };
                    assert_eq!(new_tick_upper - new_tick_lower, expected);
                }
                _ => panic!("a tick outside the range asks for a rebalance"),
            }
        }
    }
}

#[test]
fn clmm_policy_rebalances_a_range_given_backwards() {
    // the width is taken with its sign
    let command = evaluate_clmm_position(&stack(0.0), &config(100, 0, 10, 50), F(1.0));
    assert!(matches!(
        command,
        CLMMCommand::Rebalance { new_tick_lower: 100, new_tick_upper: 0 }
    ));
    // from 52.5 down to 47.5, both ties going away from zero
    let command = evaluate_clmm_position(&stack(0.0), &config(5, 0, 1, 50), F(1.0));
    assert!(matches!(
        command,
        CLMMCommand::Rebalance { new_tick_lower: 53, new_tick_upper: 48 }
    ));
}

#[test]
fn checked_policy_agrees_with_the_plain_one() {
    let c = config(-1000, 1000, 10, 1500);
    assert!(matches!(
        try_evaluate_clmm_position(&stack(0.0), &c, F(1.0)),
        Some(CLMMCommand::Rebalance { new_tick_lower: 500, new_tick_upper: 2500 })
    ));
    let c = config(-1000, 1000, 10, 0);
    assert!(matches!(
        try_evaluate_clmm_position(&stack(0.0), &c, F(1.0)),
        Some(CLMMCommand::Hold)
    ));
    assert!(matches!(
        try_evaluate_clmm_position(&stack(5.0), &c, F(1.0)),
        Some(CLMMCommand::Exit)
    ));
}

#[test]
fn checked_policy_has_no_command_where_a_bound_is_no_tick() {
    // the new upper bound would lie above the largest tick
    let c = config(0, 1000, 10, i32::MAX);
    assert!(try_evaluate_clmm_position(&stack(0.0), &c, F(1.0)).is_none());
    // the new lower bound would lie below the smallest tick
    let c = config(0, 1000, 10, i32::MIN);
    assert!(try_evaluate_clmm_position(&stack(0.0), &c, F(1.0)).is_none());
    // the jolt comes first, whatever the range
    assert!(matches!(
        try_evaluate_clmm_position(&stack(5.0), &c, F(1.0)),
        Some(CLMMCommand::Exit)
    ));
}

#[test]
fn checked_rounding_agrees_with_the_plain_one() {
    let c = config(0, 100, 10, 0);
    assert_eq!(c.try_round_tick(15), Some(20));
    assert_eq!(c.try_round_tick(-14), Some(-10));
    assert_eq!(c.try_round_tick(2147483644), Some(2147483640));
    assert_eq!(config(0, 100, 0, 0).try_round_tick(77), Some(0));
}

#[test]
fn checked_rounding_has_no_tick_beyond_the_integers() {
    let c = config(0, 100, 10, 0);
    assert_eq!(c.try_round_tick(i32::MAX), None);
    assert_eq!(c.try_round_tick(2147483645), None);
    assert_eq!(c.try_round_tick(i32::MIN), None);
    let c = config(0, 100, 1000, 0);
    assert_eq!(c.try_round_tick(2147483600), None);
    assert_eq!(c.try_round_tick(2147483400), Some(2147483000));
}

#[test]
fn clmm_policy_rebalances_far_from_zero() {
    let c = config(2147483000, 2147483600, 10, 2147483000 - 400);
    assert!(matches!(
        evaluate_clmm_position(&stack(0.0), &c, F(1.0)),
        CLMMCommand::Rebalance { new_tick_lower: 2147482300, new_tick_upper: 2147482900 }
    ));
    // the width itself is no `i32` here
    let c = config(-2000000000, 2000000000, 10, -2000000010);
    assert!(matches!(
        evaluate_clmm_position(&stack(5.0), &c, F(1.0)),
        CLMMCommand::Exit
    ));
}

#[test]
fn clmm_policy_exits_on_a_jolt_above_the_limit() {
    for current_tick in [0, 1500, -1500] {
        let c = config(-1000, 1000, 10, current_tick);
        assert!(matches!(evaluate_clmm_position(&stack(5.0), &c, F(1.0)), CLMMCommand::Exit));
        assert!(matches!(evaluate_clmm_position(&stack(-5.0), &c, F(1.0)), CLMMCommand::Exit));
    }
}

#[test]
fn clmm_policy_keeps_on_at_the_limit_itself() {
    let c = config(-1000, 1000, 10, 0);
    assert!(matches!(evaluate_clmm_position(&stack(1.0), &c, F(1.0)), CLMMCommand::Hold));
    assert!(matches!(evaluate_clmm_position(&stack(-1.0), &c, F(1.0)), CLMMCommand::Hold));
}

#[test]
fn clmm_policy_skips_the_cutoff_without_a_jolt() {
    let short: StateVector<F, 3> = StateVector([F(101.0), F(50.0), F(50.0)]);
    let c = config(-1000, 1000, 10, 0);
    assert!(matches!(evaluate_clmm_position(&short, &c, F(1.0)), CLMMCommand::Hold));
}

#[test]
fn grid_policy_exits_on_a_jolt_above_the_limit() {
    assert!(matches!(evaluate_grid_command(&stack(5.0), &grid(), F(1.0)), GridCommand::Exit));
    assert!(matches!(evaluate_grid_command(&stack(-1.5), &grid(), F(1.0)), GridCommand::Exit));
}

#[test]
fn grid_policy_holds_with_a_position() {
    assert!(matches!(evaluate_grid_command(&stack(0.5), &grid(), F(1.0)), GridCommand::Hold));
    assert!(matches!(evaluate_grid_command(&stack(1.0), &grid(), F(1.0)), GridCommand::Hold));
    let short: StateVector<F, 1> = StateVector([F(101.0)]);
    assert!(matches!(evaluate_grid_command(&short, &grid(), F(1.0)), GridCommand::Hold));
}

#[test]
fn grid_policy_waits_without_a_position() {
    let empty: StateVector<F, 0> = StateVector([]);
    assert!(matches!(evaluate_grid_command(&empty, &grid(), F(1.0)), GridCommand::Wait));
}

#[test]
fn grid_index_counts_spacings_from_the_base() {
    assert_eq!(grid().grid_index(F(105.0)), F(2.0));
    assert_eq!(grid().grid_index(F(100.0)), F(0.0));
    assert_eq!(grid().grid_index(F(90.0)), F(-4.0));
}

#[test]
fn grid_commands_carry_a_price() {
    let buy = GridCommand::Buy(F(99.5));
    assert!(matches!(buy, GridCommand::Buy(price) if price == F(99.5)));
    let sell = GridCommand::Sell(F(100.5));
    assert!(matches!(sell, GridCommand::Sell(price) if price == F(100.5)));
}

#[test]
fn stack_names_its_first_four_derivatives() {
    let state = StateVector([1.5_f64, -2.0, 0.25, 8.0, 16.0]);
    assert_eq!(state.position(), Some(1.5));
    assert_eq!(state.velocity(), Some(-2.0));
    assert_eq!(state.acceleration(), Some(0.25));
    assert_eq!(state.jolt(), Some(8.0));
    assert_eq!(state.derivative(4), Some(16.0));
}

#[test]
fn stack_has_nothing_beyond_its_end() {
    let state = StateVector([1.5_f64, -2.0]);
    assert_eq!(state.position(), Some(1.5));
    assert_eq!(state.velocity(), Some(-2.0));
    assert_eq!(state.acceleration(), None);
    assert_eq!(state.jolt(), None);
    assert_eq!(state.derivative(2), None);
    assert_eq!(state.derivative(usize::MAX), None);
    let empty: StateVector<f64, 0> = StateVector([]);
    assert_eq!(empty.position(), None);
}

#[test]
fn stacks_add_and_subtract_entry_by_entry() {
    let a = StateVector([F(1.0), F(2.0), F(-3.0)]);
    let b = StateVector([F(0.5), F(0.25), F(3.0)]);
    let sum = a + b;
    assert_eq!(sum.0, [F(1.5), F(2.25), F(0.0)]);
    let a = StateVector([F(1.0), F(2.0), F(-3.0)]);
    let b = StateVector([F(0.5), F(0.25), F(3.0)]);
    let difference = a - b;
    assert_eq!(difference.0, [F(0.5), F(1.75), F(-6.0)]);
}
