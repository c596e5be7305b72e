//! Token amounts owed for a signed liquidity change, from the price curve.
//!
//! Between two square-root prices `pl <= pu` (Q32.32) a liquidity amount `L`
//! is worth `L * (pu - pl) * 2^32 / (pl * pu)` units of asset A and
//! `L * (pu - pl) / 2^32` units of asset B.  Amounts a depositor owes round
//! up, so the pool is never under-collateralized; amounts returned to a
//! withdrawer round down, for the same reason.

use crate::errors::ErrorCode;
use crate::state::{Pool, Position};
use crate::tick_math::{
    lemma_sqrt_price_monotonic, lemma_sqrt_price_positive, sqrt_price_at_tick, sqrt_price_spec,
    tick_price_fits, MAX_TICK, MIN_TICK, PRICE_SCALE,
};
use vstd::arithmetic::div_mod::{
    lemma_div_is_ordered, lemma_div_is_ordered_by_denominator, lemma_div_multiples_vanish_fancy,
    lemma_fundamental_div_mod,
};
use vstd::arithmetic::mul::{
    lemma_mul_inequality, lemma_mul_is_distributive_add, lemma_mul_strictly_positive,
    lemma_mul_upper_bound,
};
use vstd::prelude::*;

verus! {

/// `n / d` rounded towards positive infinity.
pub open spec fn div_ceil(n: int, d: int) -> int {
    (n + d - 1) / d
}

/// `n / d` rounded up when `round_up` holds, down otherwise.
pub open spec fn div_round(n: int, d: int, round_up: bool) -> int {
    if round_up {
        div_ceil(n, d)
    } else {
        n / d
    }
}

/// The exact asset-A amount for liquidity `liquidity` between square-root
/// prices `sqrt_lower` and `sqrt_upper`: the rational
/// `liquidity * (sqrt_upper - sqrt_lower) * 2^32 / (sqrt_lower * sqrt_upper)`
/// rounded in the direction `round_up` says.
pub open spec fn token_amount_a(
    liquidity: int,
    sqrt_lower: int,
    sqrt_upper: int,
    round_up: bool,
) -> int {
    div_round(
        liquidity * (sqrt_upper - sqrt_lower) * (PRICE_SCALE as int),
        sqrt_lower * sqrt_upper,
        round_up,
    )
}

/// The exact asset-B amount for liquidity `liquidity` between square-root
/// prices `sqrt_lower` and `sqrt_upper`: the rational
/// `liquidity * (sqrt_upper - sqrt_lower) / 2^32` rounded in the direction
/// `round_up` says.
pub open spec fn token_amount_b(
    liquidity: int,
    sqrt_lower: int,
    sqrt_upper: int,
    round_up: bool,
) -> int {
    div_round(liquidity * (sqrt_upper - sqrt_lower), PRICE_SCALE as int, round_up)
}

/// Whether the asset-A computation stays representable: the scaled numerator
/// fits `u128` and the rounded amount fits `u64`.
pub open spec fn amount_a_ok(
    liquidity: int,
    sqrt_lower: int,
    sqrt_upper: int,
    round_up: bool,
) -> bool {
    &&& liquidity * (sqrt_upper - sqrt_lower) * (PRICE_SCALE as int) <= u128::MAX
    &&& token_amount_a(liquidity, sqrt_lower, sqrt_upper, round_up) <= u64::MAX
}

/// Whether the asset-B computation stays representable.
pub open spec fn amount_b_ok(
    liquidity: int,
    sqrt_lower: int,
    sqrt_upper: int,
    round_up: bool,
) -> bool {
    &&& liquidity * (sqrt_upper - sqrt_lower) <= u128::MAX
    &&& token_amount_b(liquidity, sqrt_lower, sqrt_upper, round_up) <= u64::MAX
}

/// Rounding never crosses the exact rational: the rounded-up quotient times
/// the divisor is at least `n`, and the rounded-down quotient times the
/// divisor is at most `n`.  This is what makes deposits cover the pool and
/// withdrawals never drain it.
pub proof fn lemma_round_direction(n: int, d: int)
    requires
        0 <= n,
        1 <= d,
    ensures
        d * div_round(n, d, true) >= n,
        d * div_round(n, d, false) <= n,
{
    lemma_fundamental_div_mod(n, d);
    lemma_fundamental_div_mod(n + d - 1, d);
}

/// Both token amounts are monotone in the liquidity magnitude: more
/// liquidity never needs less of either asset.
pub proof fn lemma_token_amounts_monotonic(
    l1: int,
    l2: int,
    sqrt_lower: int,
    sqrt_upper: int,
    round_up: bool,
)
    requires
        0 <= l1 <= l2,
        1 <= sqrt_lower <= sqrt_upper,
    ensures
        token_amount_a(l1, sqrt_lower, sqrt_upper, round_up) <= token_amount_a(
            l2,
            sqrt_lower,
            sqrt_upper,
            round_up,
        ),
        token_amount_b(l1, sqrt_lower, sqrt_upper, round_up) <= token_amount_b(
            l2,
            sqrt_lower,
            sqrt_upper,
            round_up,
        ),
{
    let diff = sqrt_upper - sqrt_lower;
    let d = sqrt_lower * sqrt_upper;
    lemma_mul_strictly_positive(sqrt_lower, sqrt_upper);
    lemma_mul_inequality(l1, l2, diff);
    lemma_mul_inequality(l1 * diff, l2 * diff, PRICE_SCALE as int);
    lemma_div_is_ordered(l1 * diff * (PRICE_SCALE as int), l2 * diff * (PRICE_SCALE as int), d);
    lemma_div_is_ordered(
        l1 * diff * (PRICE_SCALE as int) + d - 1,
        l2 * diff * (PRICE_SCALE as int) + d - 1,
        d,
    );
    lemma_div_is_ordered(l1 * diff, l2 * diff, PRICE_SCALE as int);
    lemma_div_is_ordered(
        l1 * diff + PRICE_SCALE as int - 1,
        l2 * diff + PRICE_SCALE as int - 1,
        PRICE_SCALE as int,
    );
}

/// Both position-level token amounts are monotone in the liquidity
/// magnitude, wherever the current price sits relative to the range:
/// doubling (or otherwise enlarging) the liquidity delta never decreases
/// either amount.
pub proof fn lemma_position_amounts_monotonic(
    tick_current: int,
    sqrt_price: int,
    position: Position,
    l1: int,
    l2: int,
    round_up: bool,
)
    requires
        0 <= l1 <= l2,
        position.tick_lower_index < position.tick_upper_index,
        tick_price_fits(position.tick_lower_index as int),
        tick_price_fits(position.tick_upper_index as int),
        sqrt_price_spec(tick_current) <= sqrt_price,
        sqrt_price <= sqrt_price_spec(tick_current + 1),
        1 <= sqrt_price,
    ensures
        position_amount_a(tick_current, sqrt_price, position, l1, round_up) <= position_amount_a(
            tick_current,
            sqrt_price,
            position,
            l2,
            round_up,
        ),
        position_amount_b(tick_current, sqrt_price, position, l1, round_up) <= position_amount_b(
            tick_current,
            sqrt_price,
            position,
            l2,
            round_up,
        ),
{
    let lo = position.tick_lower_index as int;
    let up = position.tick_upper_index as int;
    lemma_sqrt_price_positive(lo);
    lemma_sqrt_price_monotonic(lo, up);
    if tick_current < lo {
        lemma_token_amounts_monotonic(l1, l2, sqrt_price_spec(lo), sqrt_price_spec(up), round_up);
    } else if tick_current >= up {
        lemma_token_amounts_monotonic(l1, l2, sqrt_price_spec(lo), sqrt_price_spec(up), round_up);
    } else {
        lemma_sqrt_price_monotonic(lo, tick_current);
        lemma_sqrt_price_monotonic(tick_current + 1, up);
        lemma_token_amounts_monotonic(l1, l2, sqrt_price, sqrt_price_spec(up), round_up);
        lemma_token_amounts_monotonic(l1, l2, sqrt_price_spec(lo), sqrt_price, round_up);
    }
}

/// Divides with a chosen rounding direction.  The quotient of `n / d`
/// rounded up stays in `u128` because `n` itself does.
fn div_round_u128(n: u128, d: u128, round_up: bool) -> (q: u128)
    requires
        1 <= d,
    ensures
        q == div_round(n as int, d as int, round_up),
{
    let quot: u128 = n / d;
    let rem: u128 = n % d;
    proof {
        lemma_fundamental_div_mod(n as int, d as int);
        if rem == 0 {
            lemma_div_multiples_vanish_fancy(quot as int, d as int - 1, d as int);
            assert((d as int) * (quot as int) + (d as int) - 1 == n as int + d as int - 1);
        } else {
            lemma_div_multiples_vanish_fancy(quot as int + 1, rem as int - 1, d as int);
            assert((d as int) * (quot as int + 1) == (d as int) * (quot as int) + d as int) by {
                lemma_mul_is_distributive_add(d as int, quot as int, 1);
            }
            assert((d as int) * (quot as int + 1) + (rem as int) - 1 == n as int + d as int - 1);
            if quot == u128::MAX {
                lemma_mul_inequality(1, d as int, u128::MAX as int);
                assert(false);
            }
        }
    }
    if round_up && rem != 0 {
        quot + 1
    } else {
        quot
    }
}

/// Computes the asset-A amount, or `ArithmeticOverflow` exactly when the
/// scaled numerator leaves `u128` or the rounded amount leaves `u64`.
pub fn get_token_amount_a(
    sqrt_lower: u64,
    sqrt_upper: u64,
    liquidity: u128,
    round_up: bool,
) -> (r: Result<u64, ErrorCode>)
    requires
        1 <= sqrt_lower <= sqrt_upper,
    ensures
        r is Ok <==> amount_a_ok(liquidity as int, sqrt_lower as int, sqrt_upper as int, round_up),
        r matches Ok(a) ==> a == token_amount_a(
            liquidity as int,
            sqrt_lower as int,
            sqrt_upper as int,
            round_up,
        ),
        r matches Err(e) ==> e == ErrorCode::ArithmeticOverflow,
{
    let diff: u64 = sqrt_upper - sqrt_lower;
    match liquidity.checked_mul(diff as u128) {
        None => {
            proof {
                lemma_mul_inequality(1, PRICE_SCALE as int, liquidity as int * diff as int);
            }
            Err(ErrorCode::ArithmeticOverflow)
        },
        Some(m1) => match m1.checked_mul(PRICE_SCALE as u128) {
            None => Err(ErrorCode::ArithmeticOverflow),
            Some(n) => {
                proof {
                    lemma_mul_upper_bound(
                        sqrt_lower as int,
                        u64::MAX as int,
                        sqrt_upper as int,
                        u64::MAX as int,
                    );
                    lemma_mul_strictly_positive(sqrt_lower as int, sqrt_upper as int);
                }
                let d: u128 = (sqrt_lower as u128) * (sqrt_upper as u128);
                let q: u128 = div_round_u128(n, d, round_up);
                if q > u64::MAX as u128 {
                    Err(ErrorCode::ArithmeticOverflow)
                } else {
                    Ok(q as u64)
                }
            },
        },
    }
}

/// Computes the asset-B amount, or `ArithmeticOverflow` exactly when the
/// numerator leaves `u128` or the rounded amount leaves `u64`.
pub fn get_token_amount_b(
    sqrt_lower: u64,
    sqrt_upper: u64,
    liquidity: u128,
    round_up: bool,
) -> (r: Result<u64, ErrorCode>)
    requires
        sqrt_lower <= sqrt_upper,
    ensures
        r is Ok <==> amount_b_ok(liquidity as int, sqrt_lower as int, sqrt_upper as int, round_up),
        r matches Ok(b) ==> b == token_amount_b(
            liquidity as int,
            sqrt_lower as int,
            sqrt_upper as int,
            round_up,
        ),
        r matches Err(e) ==> e == ErrorCode::ArithmeticOverflow,
{
    let diff: u64 = sqrt_upper - sqrt_lower;
    match liquidity.checked_mul(diff as u128) {
        None => Err(ErrorCode::ArithmeticOverflow),
        Some(n) => {
            let q: u128 = div_round_u128(n, PRICE_SCALE as u128, round_up);
            if q > u64::MAX as u128 {
                Err(ErrorCode::ArithmeticOverflow)
            } else {
                Ok(q as u64)
            }
        },
    }
}

/// The asset-A amount a position owes or receives for a liquidity magnitude
/// `liquidity`, by where the pool's current price sits relative to the
/// position's range: below the range the position is priced entirely in
/// asset A over its own bounds; above the range it holds no asset A; inside,
/// the asset-A share runs from the current price to the upper bound.
pub open spec fn position_amount_a(
    tick_current: int,
    sqrt_price: int,
    position: Position,
    liquidity: int,
    round_up: bool,
) -> int {
    let lo = position.tick_lower_index as int;
    let up = position.tick_upper_index as int;
    if tick_current < lo {
        token_amount_a(liquidity, sqrt_price_spec(lo), sqrt_price_spec(up), round_up)
    } else if tick_current >= up {
        0
    } else {
        token_amount_a(liquidity, sqrt_price, sqrt_price_spec(up), round_up)
    }
}

/// The asset-B amount for the same three cases: zero below the range, the
/// full range above it, and the share from the lower bound to the current
/// price inside it.
pub open spec fn position_amount_b(
    tick_current: int,
    sqrt_price: int,
    position: Position,
    liquidity: int,
    round_up: bool,
) -> int {
    let lo = position.tick_lower_index as int;
    let up = position.tick_upper_index as int;
    if tick_current < lo {
        0
    } else if tick_current >= up {
        token_amount_b(liquidity, sqrt_price_spec(lo), sqrt_price_spec(up), round_up)
    } else {
        token_amount_b(liquidity, sqrt_price_spec(lo), sqrt_price, round_up)
    }
}

/// Whether both position amounts are representable: the curve must be
/// evaluable at both bounds and the branch actually taken must stay within
/// `u128` (numerator) and `u64` (amount).
pub open spec fn position_amounts_ok(
    tick_current: int,
    sqrt_price: int,
    position: Position,
    liquidity: int,
    round_up: bool,
) -> bool {
    let lo = position.tick_lower_index as int;
    let up = position.tick_upper_index as int;
    &&& tick_price_fits(lo)
    &&& tick_price_fits(up)
    &&& if tick_current < lo {
        amount_a_ok(liquidity, sqrt_price_spec(lo), sqrt_price_spec(up), round_up)
    } else if tick_current >= up {
        amount_b_ok(liquidity, sqrt_price_spec(lo), sqrt_price_spec(up), round_up)
    } else {
        &&& amount_a_ok(liquidity, sqrt_price, sqrt_price_spec(up), round_up)
        &&& amount_b_ok(liquidity, sqrt_price_spec(lo), sqrt_price, round_up)
    }
}

/// Derives both token amounts for a signed liquidity delta from the pool's
/// current tick and square-root price and the position's bounds.  Amounts
/// for a deposit (positive delta) round up; amounts for a withdrawal round
/// down.  Pure; fails with `ArithmeticOverflow` exactly when a curve value
/// or an amount leaves its representation.
pub fn calculate_liquidity_token_deltas(
    tick_current_index: i32,
    sqrt_price: u64,
    position: &Position,
    liquidity_delta: i128,
) -> (r: Result<(u64, u64), ErrorCode>)
    requires
        MIN_TICK <= position.tick_lower_index,
        position.tick_lower_index < position.tick_upper_index,
        position.tick_upper_index <= MAX_TICK,
        liquidity_delta > i128::MIN,
        MIN_TICK <= tick_current_index <= MAX_TICK,
        1 <= sqrt_price,
        sqrt_price_spec(tick_current_index as int) <= sqrt_price as int,
        sqrt_price as int <= sqrt_price_spec(tick_current_index as int + 1),
    ensures
        r is Ok <==> position_amounts_ok(
            tick_current_index as int,
            sqrt_price as int,
            *position,
            vstd::math::abs(liquidity_delta as int) as int,
            liquidity_delta > 0,
        ),
        r matches Ok(v) ==> v.0 == position_amount_a(
            tick_current_index as int,
            sqrt_price as int,
            *position,
            vstd::math::abs(liquidity_delta as int) as int,
            liquidity_delta > 0,
        ),
        r matches Ok(v) ==> v.1 == position_amount_b(
            tick_current_index as int,
            sqrt_price as int,
            *position,
            vstd::math::abs(liquidity_delta as int) as int,
            liquidity_delta > 0,
        ),
        r matches Err(e) ==> e == ErrorCode::ArithmeticOverflow,
{
    let liquidity: u128 = if liquidity_delta >= 0 {
        liquidity_delta as u128
    } else {
        (-liquidity_delta) as u128
    };
    let round_up: bool = liquidity_delta > 0;
    let sqrt_lower: u64 = match sqrt_price_at_tick(position.tick_lower_index) {
        Ok(p) => p,
        Err(e) => return Err(e),
    };
    let sqrt_upper: u64 = match sqrt_price_at_tick(position.tick_upper_index) {
        Ok(p) => p,
        Err(e) => return Err(e),
    };
    proof {
        lemma_sqrt_price_positive(position.tick_lower_index as int);
        lemma_sqrt_price_monotonic(
            position.tick_lower_index as int,
            position.tick_upper_index as int,
        );
    }
    if tick_current_index < position.tick_lower_index {
        let a: u64 = match get_token_amount_a(sqrt_lower, sqrt_upper, liquidity, round_up) {
            Ok(v) => v,
            Err(e) => return Err(e),
        };
        Ok((a, 0))
    } else if tick_current_index >= position.tick_upper_index {
        let b: u64 = match get_token_amount_b(sqrt_lower, sqrt_upper, liquidity, round_up) {
            Ok(v) => v,
            Err(e) => return Err(e),
        };
        Ok((0, b))
    } else {
        proof {
            lemma_sqrt_price_monotonic(
                position.tick_lower_index as int,
                tick_current_index as int,
            );
            lemma_sqrt_price_monotonic(
                tick_current_index as int + 1,
                position.tick_upper_index as int,
            );
        }
        let a: u64 = match get_token_amount_a(sqrt_price, sqrt_upper, liquidity, round_up) {
            Ok(v) => v,
            Err(e) => return Err(e),
        };
        let b: u64 = match get_token_amount_b(sqrt_lower, sqrt_price, liquidity, round_up) {
            Ok(v) => v,
            Err(e) => return Err(e),
        };
        Ok((a, b))
    }
}

} // verus!
