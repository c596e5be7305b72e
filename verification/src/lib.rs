//! Accounting engine for a concentrated-liquidity automated market maker.
//!
//! A pool quotes a price as a Q32.32 square-root fixed-point value and
//! discretizes it into ticks.  A position deposits liquidity over a tick
//! range; adding or removing that liquidity moves token amounts between the
//! owner and the pool's reserves and updates the bookkeeping records at the
//! range's boundary ticks.  This crate holds the whole modification pipeline:
//! delta conversion, the read pass that projects the new tick, position and
//! pool values, the storage pass that resizes and writes the tick arrays, the
//! write pass that syncs pool and position, the curve-based token-amount
//! derivation, and the slippage gate.  Value transfer and event publication
//! are left to the embedding runtime.

use vstd::prelude::*;

pub mod errors;
pub mod liquidity;
pub mod pipeline;
pub mod state;
pub mod tick_array;
pub mod tick_math;
pub mod token_math;

verus! {

/// The number of tick slots one tick array window spans.
pub const TICK_ARRAY_WIDTH: usize = 88;

} // verus!
