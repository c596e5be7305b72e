//! Curve-level checks: tick prices and token amounts on concrete values.

use ciswap::state::Position;
use ciswap::tick_math::sqrt_price_at_tick;
use ciswap::token_math::{
    calculate_liquidity_token_deltas, get_token_amount_a, get_token_amount_b,
};

const ONE: u64 = 4294967296; // 2^32, the Q32.32 unit

fn position(lower: i32, upper: i32) -> Position {
    Position {
        pool_id: 7,
        tick_lower_index: lower,
        tick_upper_index: upper,
        liquidity: 0,
        fee_growth_checkpoint_a: 0,
        fee_growth_checkpoint_b: 0,
    }
}

#[test]
fn sqrt_price_of_tick_zero_is_one() {
    assert_eq!(sqrt_price_at_tick(0), Ok(ONE));
}

#[test]
fn sqrt_price_of_adjacent_ticks() {
    assert_eq!(sqrt_price_at_tick(1), Ok(4295182038));
    assert_eq!(sqrt_price_at_tick(-1), Ok(4294752564));
}

#[test]
fn sqrt_price_is_monotone_on_samples() {
    let p_lo = sqrt_price_at_tick(-100).unwrap();
    let p_mid = sqrt_price_at_tick(0).unwrap();
    let p_hi = sqrt_price_at_tick(100).unwrap();
    assert_eq!(p_lo, 4273547274);
    assert_eq!(p_hi, 4316494680);
    assert!(p_lo < p_mid && p_mid < p_hi);
}

#[test]
fn sqrt_price_at_range_ends_stays_representable() {
    assert!(sqrt_price_at_tick(131072).is_ok());
    assert!(sqrt_price_at_tick(-131072).is_ok());
}

#[test]
fn amount_a_exact_quotient_ignores_rounding() {
    // 3 * (1.5 - 1.0) / (1.0 * 1.5) is exactly 1 in Q32.32.
    let pu: u64 = 3 * (1u64 << 31);
    assert_eq!(get_token_amount_a(ONE, pu, 3, true), Ok(1));
    assert_eq!(get_token_amount_a(ONE, pu, 3, false), Ok(1));
}

#[test]
fn amount_b_rounds_up_for_deposits_down_for_withdrawals() {
    // 3 * (1.5 - 1.0) = 1.5: a depositor owes 2, a withdrawer receives 1.
    let pu: u64 = 3 * (1u64 << 31);
    assert_eq!(get_token_amount_b(ONE, pu, 3, true), Ok(2));
    assert_eq!(get_token_amount_b(ONE, pu, 3, false), Ok(1));
}

#[test]
fn amounts_monotone_in_liquidity_magnitude() {
    let pos = position(-100, 100);
    let (a1, b1) = calculate_liquidity_token_deltas(0, ONE, &pos, 1000).unwrap();
    let (a2, b2) = calculate_liquidity_token_deltas(0, ONE, &pos, 2000).unwrap();
    assert!(a2 >= a1 && b2 >= b1);
    assert_eq!((a1, b1), (5, 5));
    assert_eq!((a2, b2), (10, 10));
}

#[test]
fn deltas_below_range_are_all_asset_a() {
    let pos = position(-100, 100);
    let p = sqrt_price_at_tick(-200).unwrap();
    assert_eq!(calculate_liquidity_token_deltas(-200, p, &pos, 500), Ok((5, 0)));
}

#[test]
fn deltas_above_range_are_all_asset_b() {
    let pos = position(-100, 100);
    let p = sqrt_price_at_tick(100).unwrap();
    assert_eq!(calculate_liquidity_token_deltas(100, p, &pos, 500), Ok((0, 5)));
}

#[test]
fn deltas_inside_range_split_between_assets() {
    let pos = position(-100, 100);
    assert_eq!(calculate_liquidity_token_deltas(0, ONE, &pos, 1000), Ok((5, 5)));
}

#[test]
fn withdrawal_amounts_never_exceed_deposit_amounts() {
    let pos = position(-100, 100);
    let (da, db) = calculate_liquidity_token_deltas(0, ONE, &pos, 1000).unwrap();
    let (wa, wb) = calculate_liquidity_token_deltas(0, ONE, &pos, -1000).unwrap();
    assert!(wa <= da && wb <= db);
    assert_eq!((wa, wb), (4, 4));
}
