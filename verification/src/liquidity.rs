//! The liquidity-modification engine.
//!
//! The read pass projects the new position, tick and pool values for a
//! signed liquidity delta without touching storage; the write pass applies a
//! projection to the live pool and position once the tick arrays have been
//! brought to the projected shape.  Splitting the two lets the caller resize
//! tick storage in between.

use crate::errors::ErrorCode;
use crate::state::{Pool, Position, TickRecord};
use vstd::prelude::*;

verus! {

/// The signed liquidity delta an unsigned amount and a direction stand for.
pub open spec fn liquidity_delta_of(amount: u128, is_increase: bool) -> int {
    if is_increase {
        amount as int
    } else {
        -(amount as int)
    }
}

/// Converts an unsigned liquidity amount and a direction flag into a signed
/// delta.  A zero amount is meaningless and is rejected before any storage
/// is touched; an amount above `i128::MAX` has no signed representation.
pub fn convert_to_liquidity_delta(liquidity_amount: u128, is_increase: bool) -> (r: Result<
    i128,
    ErrorCode,
>)
    ensures
        liquidity_amount == 0 ==> r == Err::<i128, ErrorCode>(ErrorCode::InvalidInput),
        liquidity_amount > i128::MAX ==> r == Err::<i128, ErrorCode>(ErrorCode::ArithmeticOverflow),
        0 < liquidity_amount <= i128::MAX ==> {
            &&& r is Ok
            &&& r->Ok_0 as int == liquidity_delta_of(liquidity_amount, is_increase)
        },
{
    if liquidity_amount == 0 {
        Err(ErrorCode::InvalidInput)
    } else if liquidity_amount > i128::MAX as u128 {
        Err(ErrorCode::ArithmeticOverflow)
    } else {
        let magnitude: i128 = liquidity_amount as i128;
        if is_increase {
            Ok(magnitude)
        } else {
            Ok(-magnitude)
        }
    }
}

/// Applies a signed delta to an unsigned liquidity amount.  Fails with
/// `LiquidityUnderflow` when the result would be negative and with
/// `ArithmeticOverflow` when it would leave `u128`.
pub fn add_liquidity_delta(liquidity: u128, delta: i128) -> (r: Result<u128, ErrorCode>)
    ensures
        r is Ok <==> 0 <= liquidity + delta <= u128::MAX,
        r matches Ok(v) ==> v == liquidity + delta,
        liquidity + delta < 0 ==> r == Err::<u128, ErrorCode>(ErrorCode::LiquidityUnderflow),
        liquidity + delta > u128::MAX ==> r == Err::<u128, ErrorCode>(ErrorCode::ArithmeticOverflow),
{
    match liquidity.checked_add_signed(delta) {
        Some(v) => Ok(v),
        None => if delta < 0 {
            Err(ErrorCode::LiquidityUnderflow)
        } else {
            Err(ErrorCode::ArithmeticOverflow)
        },
    }
}

/// The boundary-tick record after a modification by `delta`: the gross
/// liquidity moves by the signed delta; the net liquidity moves by `delta`
/// at the lower bound and by `-delta` at the upper bound (the register a
/// later price crossing applies); the fee-growth accumulators are left
/// alone.
pub open spec fn stepped_tick(tick: TickRecord, delta: int, is_lower: bool) -> TickRecord {
    TickRecord {
        liquidity_gross: (tick.liquidity_gross + delta) as u128,
        liquidity_net: if is_lower {
            (tick.liquidity_net + delta) as i128
        } else {
            (tick.liquidity_net - delta) as i128
        },
        ..tick
    }
}

/// Whether every value the modification produces stays representable: the
/// position's and both ticks' liquidity stay non-negative and within range,
/// and the pool aggregate does so whenever the position is in range.
pub open spec fn modify_valid(
    pool: Pool,
    position: Position,
    lower_tick: TickRecord,
    upper_tick: TickRecord,
    delta: int,
) -> bool {
    &&& 0 <= position.liquidity + delta <= u128::MAX
    &&& 0 <= lower_tick.liquidity_gross + delta <= u128::MAX
    &&& i128::MIN <= lower_tick.liquidity_net + delta <= i128::MAX
    &&& 0 <= upper_tick.liquidity_gross + delta <= u128::MAX
    &&& i128::MIN <= upper_tick.liquidity_net - delta <= i128::MAX
    &&& position.contains_current_tick(pool) ==> 0 <= pool.liquidity + delta <= u128::MAX
}

/// The first failure the read pass reports, in the order it checks: the
/// position's liquidity, then the lower tick, the upper tick, and the pool
/// aggregate.  A negative result is an underflow, anything past the range an
/// overflow.
pub open spec fn modify_error(
    pool: Pool,
    position: Position,
    lower_tick: TickRecord,
    upper_tick: TickRecord,
    delta: int,
) -> ErrorCode {
    if position.liquidity + delta < 0 {
        ErrorCode::LiquidityUnderflow
    } else if position.liquidity + delta > u128::MAX {
        ErrorCode::ArithmeticOverflow
    } else if lower_tick.liquidity_gross + delta < 0 {
        ErrorCode::LiquidityUnderflow
    } else if lower_tick.liquidity_gross + delta > u128::MAX {
        ErrorCode::ArithmeticOverflow
    } else if !(i128::MIN <= lower_tick.liquidity_net + delta <= i128::MAX) {
        ErrorCode::ArithmeticOverflow
    } else if upper_tick.liquidity_gross + delta < 0 {
        ErrorCode::LiquidityUnderflow
    } else if upper_tick.liquidity_gross + delta > u128::MAX {
        ErrorCode::ArithmeticOverflow
    } else if !(i128::MIN <= upper_tick.liquidity_net - delta <= i128::MAX) {
        ErrorCode::ArithmeticOverflow
    } else if pool.liquidity + delta < 0 {
        ErrorCode::LiquidityUnderflow
    } else {
        ErrorCode::ArithmeticOverflow
    }
}

/// The projection the read pass hands to the storage updater and the write
/// pass: the new position liquidity, the full new contents of both boundary
/// tick slots, the new pool aggregate, and the fee-growth checkpoints the
/// position will record.  Pure data; nothing is written yet.
#[derive(Clone, Copy, Debug, PartialEq, Eq, Structural)]
#[verifier::ext_equal]
pub struct ModifyLiquidityUpdate {
    pub position_liquidity: u128,
    pub tick_lower_update: TickRecord,
    pub tick_upper_update: TickRecord,
    pub pool_liquidity: u128,
    pub fee_growth_checkpoint_a: u128,
    pub fee_growth_checkpoint_b: u128,
}

/// The read pass: projects every value a modification by `liquidity_delta`
/// must write, without mutating anything.  Succeeds exactly when every
/// projected value is representable; on failure nothing may be applied.
pub fn calculate_modify_liquidity(
    pool: &Pool,
    position: &Position,
    lower_tick: &TickRecord,
    upper_tick: &TickRecord,
    liquidity_delta: i128,
) -> (r: Result<ModifyLiquidityUpdate, ErrorCode>)
    requires
        position.synced_with(*pool),
    ensures
        r is Ok <==> modify_valid(*pool, *position, *lower_tick, *upper_tick, liquidity_delta as int),
        r matches Ok(u) ==> {
            &&& u.position_liquidity == position.liquidity + liquidity_delta
            &&& u.tick_lower_update == stepped_tick(*lower_tick, liquidity_delta as int, true)
            &&& u.tick_upper_update == stepped_tick(*upper_tick, liquidity_delta as int, false)
            &&& u.pool_liquidity == if position.contains_current_tick(*pool) {
                pool.liquidity + liquidity_delta
            } else {
                pool.liquidity as int
            }
            &&& u.fee_growth_checkpoint_a == pool.fee_growth_global_a
            &&& u.fee_growth_checkpoint_b == pool.fee_growth_global_b
            &&& u.fee_growth_checkpoint_a >= position.fee_growth_checkpoint_a
            &&& u.fee_growth_checkpoint_b >= position.fee_growth_checkpoint_b
        },
        r matches Err(e) ==> e == modify_error(
            *pool,
            *position,
            *lower_tick,
            *upper_tick,
            liquidity_delta as int,
        ),
{
    let position_liquidity = match add_liquidity_delta(position.liquidity, liquidity_delta) {
        Ok(v) => v,
        Err(e) => return Err(e),
    };
    let lower_gross = match add_liquidity_delta(lower_tick.liquidity_gross, liquidity_delta) {
        Ok(v) => v,
        Err(e) => return Err(e),
    };
    let lower_net = match lower_tick.liquidity_net.checked_add(liquidity_delta) {
        Some(v) => v,
        None => return Err(ErrorCode::ArithmeticOverflow),
    };
    let upper_gross = match add_liquidity_delta(upper_tick.liquidity_gross, liquidity_delta) {
        Ok(v) => v,
        Err(e) => return Err(e),
    };
    let upper_net = match upper_tick.liquidity_net.checked_sub(liquidity_delta) {
        Some(v) => v,
        None => return Err(ErrorCode::ArithmeticOverflow),
    };
    let in_range = position.tick_lower_index <= pool.tick_current_index
        && pool.tick_current_index < position.tick_upper_index;
    let pool_liquidity = if in_range {
        match add_liquidity_delta(pool.liquidity, liquidity_delta) {
            Ok(v) => v,
            Err(e) => return Err(e),
        }
    } else {
        pool.liquidity
    };
    Ok(
        ModifyLiquidityUpdate {
            position_liquidity,
            tick_lower_update: TickRecord {
                liquidity_net: lower_net,
                liquidity_gross: lower_gross,
                ..*lower_tick
            },
            tick_upper_update: TickRecord {
                liquidity_net: upper_net,
                liquidity_gross: upper_gross,
                ..*upper_tick
            },
            pool_liquidity,
            fee_growth_checkpoint_a: pool.fee_growth_global_a,
            fee_growth_checkpoint_b: pool.fee_growth_global_b,
        },
    )
}

/// The write pass: applies a projection to the live pool and position.  It
/// first re-reads the boundary tick records the caller obtained from the
/// (possibly resized) tick arrays; any divergence from the projection means
/// the storage changed shape under the update and nothing is written.
pub fn sync_modify_liquidity_values(
    pool: &mut Pool,
    position: &mut Position,
    lower_tick: &TickRecord,
    upper_tick: &TickRecord,
    update: &ModifyLiquidityUpdate,
    timestamp: u64,
) -> (r: Result<(), ErrorCode>)
    ensures
        r is Ok <==> *lower_tick == update.tick_lower_update && *upper_tick
            == update.tick_upper_update,
        r matches Err(e) ==> {
            &&& e == ErrorCode::StaleTickArrayState
            &&& *final(pool) == *old(pool)
            &&& *final(position) == *old(position)
        },
        r is Ok ==> {
            &&& *final(pool) == (Pool {
                liquidity: update.pool_liquidity,
                last_updated_timestamp: timestamp,
                ..*old(pool)
            })
            &&& *final(position) == (Position {
                liquidity: update.position_liquidity,
                fee_growth_checkpoint_a: update.fee_growth_checkpoint_a,
                fee_growth_checkpoint_b: update.fee_growth_checkpoint_b,
                ..*old(position)
            })
        },
{
    if !(*lower_tick == update.tick_lower_update && *upper_tick == update.tick_upper_update) {
        return Err(ErrorCode::StaleTickArrayState);
    }
    pool.liquidity = update.pool_liquidity;
    pool.last_updated_timestamp = timestamp;
    position.liquidity = update.position_liquidity;
    position.fee_growth_checkpoint_a = update.fee_growth_checkpoint_a;
    position.fee_growth_checkpoint_b = update.fee_growth_checkpoint_b;
    Ok(())
}

/// One modification keeps the pool's aggregate-liquidity invariant: the
/// aggregate equals the sum of `liquidity_net` over initialized ticks at or
/// below the current tick, and the modification changes that sum by exactly
/// what it adds to the aggregate.  The lower tick contributes `delta` to the
/// sum when it lies at or below the current tick, the upper tick `-delta`;
/// the two cancel when the position is entirely below the price, and only
/// the lower one counts when the price is inside the range.
pub proof fn lemma_aggregate_consistency(
    pool: Pool,
    position: Position,
    lower_tick: TickRecord,
    upper_tick: TickRecord,
    delta: int,
)
    requires
        modify_valid(pool, position, lower_tick, upper_tick, delta),
        lower_tick.index == position.tick_lower_index,
        upper_tick.index == position.tick_upper_index,
        position.tick_lower_index < position.tick_upper_index,
    ensures
        ({
            let lower_change: int = if lower_tick.index <= pool.tick_current_index {
                stepped_tick(lower_tick, delta, true).liquidity_net - lower_tick.liquidity_net
            } else {
                0
            };
            let upper_change: int = if upper_tick.index <= pool.tick_current_index {
                stepped_tick(upper_tick, delta, false).liquidity_net - upper_tick.liquidity_net
            } else {
                0
            };
            let pool_change: int = if position.contains_current_tick(pool) {
                delta
            } else {
                0
            };
            lower_change + upper_change == pool_change
        }),
{
}

/// Round trip: stepping a boundary tick by `delta` and then by `-delta`
/// restores its net and gross liquidity exactly (fee-growth fields never
/// move), provided both steps stay representable.
pub proof fn lemma_tick_round_trip(tick: TickRecord, delta: int, is_lower: bool)
    requires
        0 <= tick.liquidity_gross + delta <= u128::MAX,
        i128::MIN <= tick.liquidity_net + delta <= i128::MAX,
        i128::MIN <= tick.liquidity_net - delta <= i128::MAX,
    ensures
        stepped_tick(stepped_tick(tick, delta, is_lower), -delta, is_lower) == tick,
{
    assert(stepped_tick(stepped_tick(tick, delta, is_lower), -delta, is_lower) =~= tick);
}

/// Round trip for the whole modification: increasing a position by some
/// liquidity and then decreasing it by the same amount restores the
/// position's liquidity, both ticks' net and gross liquidity, and the pool
/// aggregate (fee-growth checkpoints may move forward).
pub proof fn lemma_modify_round_trip(
    pool: Pool,
    position: Position,
    lower_tick: TickRecord,
    upper_tick: TickRecord,
    delta: int,
)
    requires
        modify_valid(pool, position, lower_tick, upper_tick, delta),
        i128::MIN <= lower_tick.liquidity_net - delta <= i128::MAX,
        i128::MIN <= upper_tick.liquidity_net + delta <= i128::MAX,
    ensures
        (position.liquidity + delta) - delta == position.liquidity as int,
        (pool.liquidity + delta) - delta == pool.liquidity as int,
        stepped_tick(stepped_tick(lower_tick, delta, true), -delta, true) == lower_tick,
        stepped_tick(stepped_tick(upper_tick, delta, false), -delta, false) == upper_tick,
{
    lemma_tick_round_trip(lower_tick, delta, true);
    lemma_tick_round_trip(upper_tick, delta, false);
}

} // verus!
