//! A deterministic, allocation-free numeric toolkit that turns derivative
//! readings of a price and a range or event configuration into discrete
//! position commands.
//!
//! The parts, leaves first:
//!
//! - [`scalar`]: what a scalar type must offer, and the real-number model that
//!   its operations are held to;
//! - [`state`]: the derivative stack, a quantity with its time derivatives;
//! - [`range`]: linear and modular remapping between intervals;
//! - [`pulse`]: the cyclic event-pulse engine, with the proofs that the pulse
//!   has no jump: at each boundary of a region in [`continuity`], and
//!   between any two phases in [`lipschitz`];
//! - [`rounding`], [`clmm`] and [`grid`]: tick arithmetic and the two position
//!   policies.
//!
//! Every function is generic over the scalar type. The contracts are stated
//! over the real number that a scalar stands for, so they describe the
//! arithmetic of an ordered field. No function panics, and none fails: where
//! an input leaves nothing to compute, such as an interval of length zero to
//! divide by, the contract says nothing of the result.

pub mod clmm;
pub mod continuity;
pub mod grid;
pub mod lipschitz;
pub mod pulse;
pub mod range;
pub mod rounding;
pub mod scalar;
pub mod state;

pub use crate::clmm::{
    evaluate_clmm_position, try_evaluate_clmm_position, CLMMCommand, CLMMConfig,
};
pub use crate::grid::{evaluate_grid_command, GridCommand, GridConfig};
pub use crate::pulse::{cycle_interpolate, event_pulse, in_modular_range};
pub use crate::range::{
    range_clamp, range_map, range_map_clamped, range_map_modular, range_normalize,
    range_normalize_clamped,
};
pub use crate::scalar::{FloatMath, Scalar, ScalarExt, Value};
pub use crate::state::StateVector;
