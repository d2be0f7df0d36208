//! Grid trading: a ladder of price levels a fixed spacing apart, and the
//! policy that watches a position on it.

use crate::clmm::{clmm_command_spec, exceeds_jolt_limit, CLMMCommand, CLMMConfig};
use crate::scalar::Scalar;
use crate::state::StateVector;
use vstd::prelude::*;

verus! {

/// Configuration for a price grid.
///
/// The spacing is meant to be positive and the lower bound to lie below the
/// upper one; neither is enforced.
pub struct GridConfig<T> {
    /// The price of grid level 0
    pub base_price: T,
    /// Upper price bound of the grid
    pub upper_bound: T,
    /// Lower price bound of the grid
    pub lower_bound: T,
    /// The distance between two neighbouring levels
    pub spacing: T,
}

/// Commands for grid position management.
pub enum GridCommand<T> {
    /// Buy at the given price
    Buy(T),
    /// Sell at the given price
    Sell(T),
    /// Hold current position (no action)
    Hold,
    /// Wait for a reading of the position
    Wait,
    /// Exit position entirely (emergency)
    Exit,
}

impl<T: Scalar> GridConfig<T> {
    /// The invariant of a configuration: the spacing is positive.
    pub open spec fn wf(&self) -> bool {
        self.spacing@ > 0real
    }

    /// The grid index of a price: its distance from the base price, counted in
    /// spacings.
    pub open spec fn grid_index_spec(&self, price: real) -> real {
        (price - self.base_price@) / self.spacing@
    }

    /// Returns the grid index of a price. With a spacing of zero nothing is
    /// known of the result. Where the configuration keeps its invariant, the
    /// index is negative exactly for a price below the base price.
    pub fn grid_index(&self, price: T) -> (r: T)
        ensures
            self.spacing@ != 0real ==> r@ == self.grid_index_spec(price@),
            self.wf() ==> (r@ < 0real <==> price@ < self.base_price@),
    {
        proof {
            T::arithmetic_laws();
            let (distance, spacing) = (price@ - self.base_price@, self.spacing@);
            if spacing > 0real {
                assert(distance / spacing < 0real <==> distance < 0real) by (nonlinear_arith)
                    requires
                        spacing > 0real,
                ;
            }
        }
        (price - self.base_price) / self.spacing
    }
}

/// The command of the grid policy. A jolt above the limit comes first; then a
/// stack with a position is held, and one without waits.
pub open spec fn grid_command_spec<T: Scalar, const D: usize>(
    state: &StateVector<T, D>,
    jolt_limit: T,
) -> GridCommand<T> {
    if exceeds_jolt_limit(state, jolt_limit) {
        GridCommand::Exit
    } else if D > 0 {
        GridCommand::Hold
    } else {
        GridCommand::Wait
    }
}

/// Evaluates the current state and returns a grid command.
///
/// Uses jolt (4th derivative of price) as a volatility indicator: a jolt
/// whose magnitude is above `jolt_limit` gives `Exit`, whatever the grid. The
/// grid index of the position is worked out for information only and has no
/// part in the command.
pub fn evaluate_grid_command<T: Scalar, const D: usize>(
    state: &StateVector<T, D>,
    config: &GridConfig<T>,
    jolt_limit: T,
) -> (r: GridCommand<T>)
    ensures
        r == grid_command_spec(state, jolt_limit),
        exceeds_jolt_limit(state, jolt_limit) ==> r is Exit,
{
    proof {
        T::order_laws();
    }
    // Check for extreme volatility via jolt
    if let Some(j) = state.jolt() {
        if jolt_limit < j.abs() {
            return GridCommand::Exit;
        }
    }
    match state.position() {
        Some(price) => {
            let _grid_index = config.grid_index(price);
            GridCommand::Hold
        },
        None => GridCommand::Wait,
    }
}

/// The volatility cutoff comes before everything else: with a jolt whose
/// magnitude is above the limit both policies exit, whatever the grid and
/// whatever the tick range.
pub proof fn lemma_volatility_cutoff<T: Scalar, const D: usize>(
    state: &StateVector<T, D>,
    config: &CLMMConfig<T>,
    jolt_limit: T,
)
    requires
        exceeds_jolt_limit(state, jolt_limit),
    ensures
        grid_command_spec(state, jolt_limit) == GridCommand::<T>::Exit,
        clmm_command_spec(state, config, jolt_limit) == CLMMCommand::<T>::Exit,
{
}

} // verus!
