//! The pool, position and tick records the pipeline accounts over.

use crate::tick_math::{sqrt_price_spec, MAX_TICK, MIN_TICK};
use vstd::prelude::*;

verus! {

/// One liquidity pool: an identity, the current Q32.32 square-root price and
/// its tick, the aggregate liquidity active at that price, the global
/// fee-growth accumulators of the two assets, and the time of the last
/// state-changing call.  Only the sync engine mutates a pool.
#[derive(Clone, Copy, Debug, PartialEq, Eq, Structural)]
pub struct Pool {
    pub id: u64,
    pub tick_spacing: u16,
    pub sqrt_price: u64,
    pub tick_current_index: i32,
    pub liquidity: u128,
    pub fee_growth_global_a: u128,
    pub fee_growth_global_b: u128,
    pub last_updated_timestamp: u64,
}

impl Pool {
    /// A pool is well formed when its tick spacing is positive, its current
    /// tick is in range, and its square-root price sits inside the current
    /// tick's price bucket.
    pub open spec fn wf(self) -> bool {
        &&& 1 <= self.tick_spacing
        &&& MIN_TICK <= self.tick_current_index <= MAX_TICK
        &&& 1 <= self.sqrt_price
        &&& sqrt_price_spec(self.tick_current_index as int) <= self.sqrt_price as int
        &&& self.sqrt_price as int <= sqrt_price_spec(self.tick_current_index as int + 1)
    }
}

/// One user position: the owning pool, a half-open tick range, the liquidity
/// deposited over it, and the per-asset fee-growth checkpoints captured at
/// the last modification.
#[derive(Clone, Copy, Debug, PartialEq, Eq, Structural)]
pub struct Position {
    pub pool_id: u64,
    pub tick_lower_index: i32,
    pub tick_upper_index: i32,
    pub liquidity: u128,
    pub fee_growth_checkpoint_a: u128,
    pub fee_growth_checkpoint_b: u128,
}

impl Position {
    /// A position is consistent with its pool when it names the pool's
    /// identity and its checkpoints have not run ahead of the pool's global
    /// accumulators; the sync engine only ever advances checkpoints to the
    /// globals, so this is preserved by every modification.
    pub open spec fn synced_with(self, pool: Pool) -> bool {
        &&& self.pool_id == pool.id
        &&& self.fee_growth_checkpoint_a <= pool.fee_growth_global_a
        &&& self.fee_growth_checkpoint_b <= pool.fee_growth_global_b
    }

    /// Whether the pool's current tick lies inside this position's half-open
    /// range, i.e. whether the position's liquidity is active.
    pub open spec fn contains_current_tick(self, pool: Pool) -> bool {
        self.tick_lower_index <= pool.tick_current_index < self.tick_upper_index
    }
}

/// Bookkeeping for one tick: the signed liquidity applied to the pool
/// aggregate when the price crosses the tick, the total liquidity of all
/// positions referencing it, and the per-asset fee growth recorded outside
/// it.  A tick whose gross liquidity is zero counts as uninitialized.
#[derive(Clone, Copy, Debug, PartialEq, Eq, Structural)]
#[verifier::ext_equal]
pub struct TickRecord {
    pub index: i32,
    pub liquidity_net: i128,
    pub liquidity_gross: u128,
    pub fee_growth_outside_a: u128,
    pub fee_growth_outside_b: u128,
}

impl TickRecord {
    /// The record of a tick no position references: everything zero.
    pub fn uninitialized(index: i32) -> (r: TickRecord)
        ensures
            r == (TickRecord {
                index,
                liquidity_net: 0,
                liquidity_gross: 0,
                fee_growth_outside_a: 0,
                fee_growth_outside_b: 0,
            }),
    {
        TickRecord {
            index,
            liquidity_net: 0,
            liquidity_gross: 0,
            fee_growth_outside_a: 0,
            fee_growth_outside_b: 0,
        }
    }
}

} // verus!
