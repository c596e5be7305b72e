//! Fixed-point square-root prices and the tick curve.
//!
//! A square-root price is an unsigned Q32.32 fixed-point value: the integer
//! `p` stands for the real number `p / 2^32`.  Tick `t` stands for the price
//! `1.0001^t`, so its square-root price is `sqrt(1.0001)^t`.  The curve is
//! evaluated with integer arithmetic only: one multiplication by the Q32.32
//! ratio of adjacent ticks per tick step, flooring after each step, and a
//! reciprocal through `2^64` for negative ticks.

use crate::errors::ErrorCode;
use vstd::arithmetic::div_mod::{
    lemma_div_is_ordered, lemma_div_is_ordered_by_denominator, lemma_div_multiples_vanish,
};
use vstd::arithmetic::mul::lemma_mul_inequality;
use vstd::prelude::*;

verus! {

/// `2^32`: the Q32.32 representation of the real number one.
pub const PRICE_SCALE: u64 = 4294967296;

/// `floor(sqrt(1.0001) * 2^32)`: the Q32.32 ratio between the square-root
/// prices of two adjacent ticks.
pub const SQRT_TICK_RATIO: u64 = 4295182038;

/// `2^64`: the square of the price scale, used to take the reciprocal of a
/// Q32.32 value without leaving Q32.32.
pub const PRICE_SQUARE_SCALE: u128 = 18446744073709551616;

/// Largest tick index the engine accepts; chosen so that every in-range
/// square-root price fits comfortably in a `u64`.
pub const MAX_TICK: i32 = 131072;

/// Smallest tick index the engine accepts.
pub const MIN_TICK: i32 = -131072;

/// The magnitude of a tick index.
pub open spec fn abs_tick(tick: int) -> nat {
    if tick >= 0 {
        tick as nat
    } else {
        (-tick) as nat
    }
}

/// Whether a tick index is a multiple of the pool's tick spacing.
pub open spec fn tick_aligned(tick: int, spacing: int) -> bool {
    (abs_tick(tick) as int) % spacing == 0
}

/// Checks a tick index against the pool's tick spacing.
pub fn is_tick_aligned(tick: i32, spacing: u16) -> (r: bool)
    requires
        MIN_TICK <= tick <= MAX_TICK,
        1 <= spacing,
    ensures
        r == tick_aligned(tick as int, spacing as int),
{
    let magnitude: i32 = if tick >= 0 {
        tick
    } else {
        -tick
    };
    (magnitude as u32) % (spacing as u32) == 0
}

/// The Q32.32 square-root price `n` ticks above tick zero: the price of tick
/// zero (one) multiplied `n` times by the adjacent-tick ratio, flooring after
/// each step.
pub open spec fn sqrt_price_growth(n: nat) -> int
    decreases n,
{
    if n == 0 {
        PRICE_SCALE as int
    } else {
        sqrt_price_growth((n - 1) as nat) * (SQRT_TICK_RATIO as int) / (PRICE_SCALE as int)
    }
}

/// The Q32.32 square-root price of a tick: the growth product for ticks at
/// or above zero, its reciprocal through `2^64` below zero.
pub open spec fn sqrt_price_spec(tick: int) -> int {
    if tick >= 0 {
        sqrt_price_growth(tick as nat)
    } else {
        (PRICE_SQUARE_SCALE as int) / sqrt_price_growth((-tick) as nat)
    }
}

/// Whether the curve evaluation at a tick stays within `u64`.  The growth
/// product is monotone, so this bounds every intermediate step as well.
pub open spec fn tick_price_fits(tick: int) -> bool {
    sqrt_price_growth(abs_tick(tick)) <= u64::MAX as int
}

/// The growth product never falls below the price of tick zero.
pub proof fn lemma_sqrt_price_growth_lower_bound(n: nat)
    ensures
        sqrt_price_growth(n) >= PRICE_SCALE as int,
    decreases n,
{
    if n > 0 {
        lemma_sqrt_price_growth_lower_bound((n - 1) as nat);
        let p = sqrt_price_growth((n - 1) as nat);
        lemma_mul_inequality(PRICE_SCALE as int, SQRT_TICK_RATIO as int, p);
        assert(p * (PRICE_SCALE as int) <= p * (SQRT_TICK_RATIO as int));
        lemma_div_is_ordered(
            p * (PRICE_SCALE as int),
            p * (SQRT_TICK_RATIO as int),
            PRICE_SCALE as int,
        );
        lemma_div_multiples_vanish(p, PRICE_SCALE as int);
        assert((PRICE_SCALE as int) * p == p * (PRICE_SCALE as int));
    }
}

/// One step of the growth product never decreases it.
pub proof fn lemma_sqrt_price_growth_step(n: nat)
    requires
        n > 0,
    ensures
        sqrt_price_growth(n) >= sqrt_price_growth((n - 1) as nat),
{
    let p = sqrt_price_growth((n - 1) as nat);
    lemma_sqrt_price_growth_lower_bound((n - 1) as nat);
    lemma_mul_inequality(PRICE_SCALE as int, SQRT_TICK_RATIO as int, p);
    assert(p * (PRICE_SCALE as int) <= p * (SQRT_TICK_RATIO as int));
    lemma_div_is_ordered(p * (PRICE_SCALE as int), p * (SQRT_TICK_RATIO as int), PRICE_SCALE as int);
    lemma_div_multiples_vanish(p, PRICE_SCALE as int);
    assert((PRICE_SCALE as int) * p == p * (PRICE_SCALE as int));
}

/// The growth product is monotone in the number of tick steps.
pub proof fn lemma_sqrt_price_growth_monotonic(i: nat, j: nat)
    requires
        i <= j,
    ensures
        sqrt_price_growth(i) <= sqrt_price_growth(j),
    decreases j,
{
    if i < j {
        lemma_sqrt_price_growth_monotonic(i, (j - 1) as nat);
        lemma_sqrt_price_growth_step(j);
    }
}

/// The square-root price is monotone in the tick index.
pub proof fn lemma_sqrt_price_monotonic(t1: int, t2: int)
    requires
        t1 <= t2,
    ensures
        sqrt_price_spec(t1) <= sqrt_price_spec(t2),
{
    if t1 >= 0 {
        lemma_sqrt_price_growth_monotonic(t1 as nat, t2 as nat);
    } else if t2 < 0 {
        lemma_sqrt_price_growth_monotonic((-t2) as nat, (-t1) as nat);
        lemma_sqrt_price_growth_lower_bound((-t2) as nat);
        lemma_div_is_ordered_by_denominator(
            PRICE_SQUARE_SCALE as int,
            sqrt_price_growth((-t2) as nat),
            sqrt_price_growth((-t1) as nat),
        );
    } else {
        lemma_sqrt_price_growth_lower_bound((-t1) as nat);
        lemma_div_is_ordered_by_denominator(
            PRICE_SQUARE_SCALE as int,
            PRICE_SCALE as int,
            sqrt_price_growth((-t1) as nat),
        );
        assert((PRICE_SQUARE_SCALE as int) / (PRICE_SCALE as int) == PRICE_SCALE as int);
        lemma_sqrt_price_growth_monotonic(0, t2 as nat);
    }
}

/// Every in-range square-root price is strictly positive.
pub proof fn lemma_sqrt_price_positive(tick: int)
    requires
        tick_price_fits(tick),
    ensures
        sqrt_price_spec(tick) >= 1,
{
    if tick >= 0 {
        lemma_sqrt_price_growth_lower_bound(tick as nat);
    } else {
        let g = sqrt_price_growth((-tick) as nat);
        lemma_sqrt_price_growth_lower_bound((-tick) as nat);
        lemma_div_is_ordered(g, PRICE_SQUARE_SCALE as int, g);
        assert(g / g == 1) by {
            lemma_div_multiples_vanish(1, g);
        }
    }
}

/// Evaluates the curve at a tick: the Q32.32 square-root price of `tick`, or
/// `ArithmeticOverflow` exactly when the growth product for the tick's
/// magnitude leaves `u64`.
pub fn sqrt_price_at_tick(tick: i32) -> (r: Result<u64, ErrorCode>)
    requires
        MIN_TICK <= tick <= MAX_TICK,
    ensures
        r is Ok <==> tick_price_fits(tick as int),
        r matches Ok(p) ==> p == sqrt_price_spec(tick as int),
        r matches Err(e) ==> e == ErrorCode::ArithmeticOverflow,
{
    let n: u32 = if tick >= 0 {
        tick as u32
    } else {
        (-tick) as u32
    };
    let mut p: u64 = PRICE_SCALE;
    let mut i: u32 = 0;
    while i < n
        invariant
            i <= n,
            n as nat == abs_tick(tick as int),
            p == sqrt_price_growth(i as nat),
        decreases n - i,
    {
        proof {
            lemma_mul_inequality(p as int, u64::MAX as int, SQRT_TICK_RATIO as int);
            lemma_mul_inequality(SQRT_TICK_RATIO as int, u64::MAX as int, u64::MAX as int);
        }
        let prod: u128 = (p as u128) * (SQRT_TICK_RATIO as u128);
        let next: u128 = prod / (PRICE_SCALE as u128);
        proof {
            lemma_div_is_ordered(0, prod as int, PRICE_SCALE as int);
        }
        if next > u64::MAX as u128 {
            proof {
                lemma_sqrt_price_growth_monotonic((i + 1) as nat, abs_tick(tick as int));
            }
            return Err(ErrorCode::ArithmeticOverflow);
        }
        p = next as u64;
        i = i + 1;
    }
    if tick >= 0 {
        Ok(p)
    } else {
        proof {
            lemma_sqrt_price_growth_lower_bound(n as nat);
            lemma_div_is_ordered_by_denominator(
                PRICE_SQUARE_SCALE as int,
                PRICE_SCALE as int,
                p as int,
            );
            assert((PRICE_SQUARE_SCALE as int) / (PRICE_SCALE as int) == PRICE_SCALE as int);
        }
        let q: u128 = PRICE_SQUARE_SCALE / (p as u128);
        Ok(q as u64)
    }
}

} // verus!
