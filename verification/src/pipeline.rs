//! The public liquidity-modification operation.
//!
//! The pipeline runs the stages in order: delta conversion, input
//! validation, the read pass, the capacity check, the token-amount
//! derivation, the slippage gate, the storage pass, and the write pass.
//! Every fallible stage runs before the first write, and the token amounts
//! depend only on values the pipeline never changes, so any failure leaves
//! the pool, the position and both tick arrays exactly as they were.
//! Settlement (the two transfers and the change event) is the embedding
//! runtime's job; it receives the receipt this operation returns, and the
//! slippage gate has already run by then.

use crate::errors::ErrorCode;
use crate::liquidity::{
    calculate_modify_liquidity, convert_to_liquidity_delta, liquidity_delta_of, modify_error,
    modify_valid, stepped_tick, sync_modify_liquidity_values, ModifyLiquidityUpdate,
};
use crate::state::{Pool, Position, TickRecord};
use crate::tick_array::{
    apply_tick_update, get_tick, has_room_for, lemma_tick_at_index, TickArray,
};
use crate::tick_math::{is_tick_aligned, tick_aligned};
use crate::token_math::{
    calculate_liquidity_token_deltas, position_amount_a, position_amount_b, position_amounts_ok,
};
use vstd::prelude::*;

verus! {

/// The boundary tick arrays of one modification.  A narrow position keeps
/// both bounds in one window; a wide one uses two distinct windows.
#[derive(Clone, Debug, PartialEq, Eq)]
pub enum TickArrays {
    Shared(TickArray),
    Split(TickArray, TickArray),
}

impl TickArrays {
    /// The window holding the position's lower bound.
    pub open spec fn lower_window(self) -> TickArray {
        match self {
            TickArrays::Shared(a) => a,
            TickArrays::Split(l, _) => l,
        }
    }

    /// The window holding the position's upper bound.
    pub open spec fn upper_window(self) -> TickArray {
        match self {
            TickArrays::Shared(a) => a,
            TickArrays::Split(_, u) => u,
        }
    }

    /// Well-formedness of the pair for a position's bounds: each window is
    /// well formed and covers its bound, and split windows do not overlap
    /// (tick arrays of one pool never do).
    pub open spec fn wf_windows(self, lower: int, upper: int) -> bool {
        &&& self.lower_window().wf()
        &&& self.upper_window().wf()
        &&& self.lower_window().covers(lower)
        &&& self.upper_window().covers(upper)
        &&& self is Split ==> !self.lower_window().covers(upper) && !self.upper_window().covers(
            lower,
        )
    }

    /// The pair belongs to `pool`: both windows name its identity and use
    /// its tick spacing.
    pub open spec fn belongs_to(self, pool: Pool) -> bool {
        &&& self.lower_window().pool_id == pool.id
        &&& self.upper_window().pool_id == pool.id
        &&& self.lower_window().tick_spacing == pool.tick_spacing
        &&& self.upper_window().tick_spacing == pool.tick_spacing
    }
}

/// Reads the records of both boundary ticks.
pub fn read_boundary_ticks(arrays: &TickArrays, lower_index: i32, upper_index: i32) -> (r: (
    TickRecord,
    TickRecord,
))
    requires
        arrays.wf_windows(lower_index as int, upper_index as int),
    ensures
        r.0 == arrays.lower_window().tick_at(lower_index as int),
        r.1 == arrays.upper_window().tick_at(upper_index as int),
        r.0.index == lower_index,
        r.1.index == upper_index,
{
    proof {
        lemma_tick_at_index(arrays.lower_window(), lower_index as int);
        lemma_tick_at_index(arrays.upper_window(), upper_index as int);
    }
    match arrays {
        TickArrays::Shared(a) => (get_tick(a, lower_index), get_tick(a, upper_index)),
        TickArrays::Split(l, u) => (get_tick(l, lower_index), get_tick(u, upper_index)),
    }
}

/// Whether both boundary slots are materialized or can be within the
/// windows' allocated capacities.
pub fn windows_have_room(arrays: &TickArrays, lower_index: i32, upper_index: i32) -> (r: bool)
    requires
        arrays.wf_windows(lower_index as int, upper_index as int),
    ensures
        r == (arrays.lower_window().can_materialize(lower_index as int)
            && arrays.upper_window().can_materialize(upper_index as int)),
{
    match arrays {
        TickArrays::Shared(a) => has_room_for(a, lower_index) && has_room_for(a, upper_index),
        TickArrays::Split(l, u) => has_room_for(l, lower_index) && has_room_for(u, upper_index),
    }
}

/// The storage pass: brings each window to the capacity the two boundary
/// updates require and materializes the updated records into their slots.
/// Fails with `StorageResizeFailed`, writing nothing, when a backing region
/// cannot grow enough; otherwise every other covered tick keeps its record
/// and the window metadata is unchanged.
pub fn update_tick_array_accounts(
    arrays: &mut TickArrays,
    lower_update: &TickRecord,
    upper_update: &TickRecord,
) -> (r: Result<(), ErrorCode>)
    requires
        old(arrays).wf_windows(lower_update.index as int, upper_update.index as int),
        lower_update.index < upper_update.index,
    ensures
        r is Ok <==> old(arrays).lower_window().can_materialize(lower_update.index as int)
            && old(arrays).upper_window().can_materialize(upper_update.index as int),
        r matches Err(e) ==> e == ErrorCode::StorageResizeFailed && *final(arrays)
            == *old(arrays),
        r is Ok ==> {
            &&& (*final(arrays)) is Shared <==> (*old(arrays)) is Shared
            &&& final(arrays).lower_window().wf()
            &&& final(arrays).upper_window().wf()
            &&& final(arrays).lower_window().same_window(old(arrays).lower_window())
            &&& final(arrays).upper_window().same_window(old(arrays).upper_window())
            &&& final(arrays).lower_window().tick_at(lower_update.index as int) == *lower_update
            &&& final(arrays).upper_window().tick_at(upper_update.index as int) == *upper_update
            &&& forall|t: int|
                old(arrays).lower_window().covers(t) && t != lower_update.index as int && t
                    != upper_update.index as int ==> final(arrays).lower_window().tick_at(t)
                    == old(arrays).lower_window().tick_at(t)
            &&& forall|t: int|
                old(arrays).upper_window().covers(t) && t != lower_update.index as int && t
                    != upper_update.index as int ==> final(arrays).upper_window().tick_at(t)
                    == old(arrays).upper_window().tick_at(t)
        },
{
    match arrays {
        TickArrays::Shared(a) => {
            if !(has_room_for(a, lower_update.index) && has_room_for(a, upper_update.index)) {
                return Err(ErrorCode::StorageResizeFailed);
            }
            match apply_tick_update(a, lower_update) {
                Ok(()) => {},
                Err(e) => {
                    proof {
                        assert(false);
                    }
                    return Err(e);
                },
            }
            match apply_tick_update(a, upper_update) {
                Ok(()) => {},
                Err(e) => {
                    proof {
                        assert(false);
                    }
                    return Err(e);
                },
            }
            Ok(())
        },
        TickArrays::Split(l, u) => {
            if !(has_room_for(l, lower_update.index) && has_room_for(u, upper_update.index)) {
                return Err(ErrorCode::StorageResizeFailed);
            }
            match apply_tick_update(l, lower_update) {
                Ok(()) => {},
                Err(e) => {
                    proof {
                        assert(false);
                    }
                    return Err(e);
                },
            }
            match apply_tick_update(u, upper_update) {
                Ok(()) => {},
                Err(e) => {
                    proof {
                        assert(false);
                    }
                    return Err(e);
                },
            }
            Ok(())
        },
    }
}

/// What one successful modification reports to the settlement layer and to
/// downstream indexers: the pool, the range, the liquidity moved and the
/// two token amounts owed.
#[derive(Clone, Copy, Debug, PartialEq, Eq, Structural)]
pub struct LiquidityChangeReceipt {
    pub pool_id: u64,
    pub tick_lower_index: i32,
    pub tick_upper_index: i32,
    pub liquidity_amount: u128,
    pub is_increase: bool,
    pub token_a_amount: u64,
    pub token_b_amount: u64,
}

/// The first failure the pipeline reports for given inputs, in stage order:
/// delta conversion, bound validation, the read pass, the capacity check,
/// the token-amount derivation, and the slippage gate.  `None` means the
/// operation succeeds.
pub open spec fn modify_failure(
    pool: Pool,
    position: Position,
    arrays: TickArrays,
    liquidity_amount: u128,
    is_increase: bool,
    token_max_a: u64,
    token_max_b: u64,
) -> Option<ErrorCode> {
    let lo = position.tick_lower_index as int;
    let up = position.tick_upper_index as int;
    let delta = liquidity_delta_of(liquidity_amount, is_increase);
    let lower_tick = arrays.lower_window().tick_at(lo);
    let upper_tick = arrays.upper_window().tick_at(up);
    let tc = pool.tick_current_index as int;
    let sp = pool.sqrt_price as int;
    if liquidity_amount == 0 {
        Some(ErrorCode::InvalidInput)
    } else if liquidity_amount > i128::MAX {
        Some(ErrorCode::ArithmeticOverflow)
    } else if !(lo < up) || !tick_aligned(lo, pool.tick_spacing as int) || !tick_aligned(
        up,
        pool.tick_spacing as int,
    ) {
        Some(ErrorCode::InvalidInput)
    } else if !modify_valid(pool, position, lower_tick, upper_tick, delta) {
        Some(modify_error(pool, position, lower_tick, upper_tick, delta))
    } else if !(arrays.lower_window().can_materialize(lo) && arrays.upper_window().can_materialize(
        up,
    )) {
        Some(ErrorCode::StorageResizeFailed)
    } else if !position_amounts_ok(tc, sp, position, liquidity_amount as int, is_increase) {
        Some(ErrorCode::ArithmeticOverflow)
    } else if position_amount_a(tc, sp, position, liquidity_amount as int, is_increase)
        > token_max_a || position_amount_b(tc, sp, position, liquidity_amount as int, is_increase)
        > token_max_b {
        Some(ErrorCode::SlippageExceeded)
    } else {
        None
    }
}

/// The public operation: moves `liquidity_amount` into (or out of) the
/// position's range, updating the boundary ticks, the pool aggregate, the
/// position and its fee-growth checkpoints, and returns the token amounts
/// the settlement layer must move.  Fails without any effect when a stage
/// refuses; the receipt's amounts respect the caller's declared maxima.
pub fn modify_liquidity(
    pool: &mut Pool,
    position: &mut Position,
    arrays: &mut TickArrays,
    liquidity_amount: u128,
    is_increase: bool,
    token_max_a: u64,
    token_max_b: u64,
    timestamp: u64,
) -> (r: Result<LiquidityChangeReceipt, ErrorCode>)
    requires
        old(pool).wf(),
        old(position).synced_with(*old(pool)),
        old(arrays).wf_windows(
            old(position).tick_lower_index as int,
            old(position).tick_upper_index as int,
        ),
        old(arrays).belongs_to(*old(pool)),
    ensures
        r is Ok <==> modify_failure(
            *old(pool),
            *old(position),
            *old(arrays),
            liquidity_amount,
            is_increase,
            token_max_a,
            token_max_b,
        ) is None,
        r matches Err(e) ==> {
            &&& modify_failure(
                *old(pool),
                *old(position),
                *old(arrays),
                liquidity_amount,
                is_increase,
                token_max_a,
                token_max_b,
            ) == Some(e)
            &&& *final(pool) == *old(pool)
            &&& *final(position) == *old(position)
            &&& *final(arrays) == *old(arrays)
        },
        r matches Ok(receipt) ==> {
            let delta = liquidity_delta_of(liquidity_amount, is_increase);
            let lo = old(position).tick_lower_index as int;
            let up = old(position).tick_upper_index as int;
            let tc = old(pool).tick_current_index as int;
            let sp = old(pool).sqrt_price as int;
            &&& *final(position) == (Position {
                liquidity: (old(position).liquidity + delta) as u128,
                fee_growth_checkpoint_a: old(pool).fee_growth_global_a,
                fee_growth_checkpoint_b: old(pool).fee_growth_global_b,
                ..*old(position)
            })
            &&& *final(pool) == (Pool {
                liquidity: if old(position).contains_current_tick(*old(pool)) {
                    (old(pool).liquidity + delta) as u128
                } else {
                    old(pool).liquidity
                },
                last_updated_timestamp: timestamp,
                ..*old(pool)
            })
            &&& (*final(arrays)) is Shared <==> (*old(arrays)) is Shared
            &&& final(arrays).lower_window().same_window(old(arrays).lower_window())
            &&& final(arrays).upper_window().same_window(old(arrays).upper_window())
            &&& final(arrays).lower_window().wf()
            &&& final(arrays).upper_window().wf()
            &&& final(arrays).lower_window().tick_at(lo) == stepped_tick(
                old(arrays).lower_window().tick_at(lo),
                delta,
                true,
            )
            &&& final(arrays).upper_window().tick_at(up) == stepped_tick(
                old(arrays).upper_window().tick_at(up),
                delta,
                false,
            )
            &&& forall|t: int|
                old(arrays).lower_window().covers(t) && t != lo && t != up
                    ==> final(arrays).lower_window().tick_at(t)
                    == old(arrays).lower_window().tick_at(t)
            &&& forall|t: int|
                old(arrays).upper_window().covers(t) && t != lo && t != up
                    ==> final(arrays).upper_window().tick_at(t)
                    == old(arrays).upper_window().tick_at(t)
            &&& receipt.pool_id == old(pool).id
            &&& receipt.tick_lower_index == old(position).tick_lower_index
            &&& receipt.tick_upper_index == old(position).tick_upper_index
            &&& receipt.liquidity_amount == liquidity_amount
            &&& receipt.is_increase == is_increase
            &&& receipt.token_a_amount == position_amount_a(
                tc,
                sp,
                *old(position),
                liquidity_amount as int,
                is_increase,
            )
            &&& receipt.token_b_amount == position_amount_b(
                tc,
                sp,
                *old(position),
                liquidity_amount as int,
                is_increase,
            )
            &&& receipt.token_a_amount <= token_max_a
            &&& receipt.token_b_amount <= token_max_b
        },
{
    let lo: i32 = position.tick_lower_index;
    let up: i32 = position.tick_upper_index;
    let delta: i128 = match convert_to_liquidity_delta(liquidity_amount, is_increase) {
        Ok(d) => d,
        Err(e) => return Err(e),
    };
    if !(lo < up) || !is_tick_aligned(lo, pool.tick_spacing) || !is_tick_aligned(
        up,
        pool.tick_spacing,
    ) {
        return Err(ErrorCode::InvalidInput);
    }
    let boundary = read_boundary_ticks(arrays, lo, up);
    let lower_before = boundary.0;
    let upper_before = boundary.1;
    let update: ModifyLiquidityUpdate = match calculate_modify_liquidity(
        pool,
        position,
        &lower_before,
        &upper_before,
        delta,
    ) {
        Ok(u) => u,
        Err(e) => return Err(e),
    };
    if !windows_have_room(arrays, lo, up) {
        return Err(ErrorCode::StorageResizeFailed);
    }
    let deltas = match calculate_liquidity_token_deltas(
        pool.tick_current_index,
        pool.sqrt_price,
        position,
        delta,
    ) {
        Ok(v) => v,
        Err(e) => return Err(e),
    };
    let delta_a = deltas.0;
    let delta_b = deltas.1;
    if delta_a > token_max_a || delta_b > token_max_b {
        return Err(ErrorCode::SlippageExceeded);
    }
    match update_tick_array_accounts(arrays, &update.tick_lower_update, &update.tick_upper_update) {
        Ok(()) => {},
        Err(e) => {
            proof {
                assert(false);
            }
            return Err(e);
        },
    }
    let after = read_boundary_ticks(arrays, lo, up);
    match sync_modify_liquidity_values(pool, position, &after.0, &after.1, &update, timestamp) {
        Ok(()) => {},
        Err(e) => {
            proof {
                assert(false);
            }
            return Err(e);
        },
    }
    Ok(
        LiquidityChangeReceipt {
            pool_id: pool.id,
            tick_lower_index: lo,
            tick_upper_index: up,
            liquidity_amount,
            is_increase,
            token_a_amount: delta_a,
            token_b_amount: delta_b,
        },
    )
}

} // verus!
