//! End-to-end checks of the modification pipeline and its failure modes.

use ciswap::errors::ErrorCode;
use ciswap::liquidity::{
    calculate_modify_liquidity, convert_to_liquidity_delta, sync_modify_liquidity_values,
};
use ciswap::pipeline::{modify_liquidity, TickArrays};
use ciswap::state::{Pool, Position, TickRecord};
use ciswap::tick_array::{apply_tick_update, get_tick, TickArray};

const ONE: u64 = 4294967296; // 2^32, the Q32.32 unit

fn pool() -> Pool {
    Pool {
        id: 7,
        tick_spacing: 1,
        sqrt_price: ONE,
        tick_current_index: 0,
        liquidity: 10_000,
        fee_growth_global_a: 777,
        fee_growth_global_b: 888,
        last_updated_timestamp: 0,
    }
}

fn position(liquidity: u128) -> Position {
    Position {
        pool_id: 7,
        tick_lower_index: -100,
        tick_upper_index: 100,
        liquidity,
        fee_growth_checkpoint_a: 0,
        fee_growth_checkpoint_b: 0,
    }
}

fn window(start: i32) -> TickArray {
    TickArray {
        pool_id: 7,
        start_tick_index: start,
        tick_spacing: 1,
        capacity: 88,
        ticks: Vec::new(),
    }
}

/// Split windows covering the bounds -100 and 100.
fn split_arrays() -> TickArrays {
    TickArrays::Split(window(-176), window(88))
}

#[test]
fn deposit_inside_range_updates_everything() {
    let mut p = pool();
    let mut pos = position(0);
    let mut arrays = split_arrays();
    let receipt = modify_liquidity(&mut p, &mut pos, &mut arrays, 1000, true, 100, 100, 42)
        .unwrap();
    assert_eq!(receipt.token_a_amount, 5);
    assert_eq!(receipt.token_b_amount, 5);
    assert_eq!(receipt.pool_id, 7);
    assert_eq!(receipt.liquidity_amount, 1000);
    assert!(receipt.is_increase);
    assert_eq!(p.liquidity, 11_000);
    assert_eq!(p.last_updated_timestamp, 42);
    assert_eq!(pos.liquidity, 1000);
    assert_eq!(pos.fee_growth_checkpoint_a, 777);
    assert_eq!(pos.fee_growth_checkpoint_b, 888);
    match &arrays {
        TickArrays::Split(lower, upper) => {
            let lt = get_tick(lower, -100);
            let ut = get_tick(upper, 100);
            assert_eq!(lt.liquidity_net, 1000);
            assert_eq!(lt.liquidity_gross, 1000);
            assert_eq!(ut.liquidity_net, -1000);
            assert_eq!(ut.liquidity_gross, 1000);
        },
        _ => panic!("expected split windows"),
    }
}

#[test]
fn pool_liquidity_unchanged_when_out_of_range() {
    let mut p = pool();
    p.tick_current_index = -200;
    p.sqrt_price = 4252234078; // the square-root price of tick -200
    let mut pos = position(0);
    let mut arrays = split_arrays();
    modify_liquidity(&mut p, &mut pos, &mut arrays, 1000, true, 100, 100, 42).unwrap();
    assert_eq!(p.liquidity, 10_000);
    assert_eq!(pos.liquidity, 1000);
}

#[test]
fn slippage_gate_fails_without_effect() {
    let mut p = pool();
    let mut pos = position(0);
    let mut arrays = split_arrays();
    let (p0, pos0, arrays0) = (p, pos, arrays.clone());
    // the exact asset-A amount is 5; declare one less
    let r = modify_liquidity(&mut p, &mut pos, &mut arrays, 1000, true, 4, 100, 42);
    assert_eq!(r, Err(ErrorCode::SlippageExceeded));
    assert_eq!(p, p0);
    assert_eq!(pos, pos0);
    assert_eq!(arrays, arrays0);
}

#[test]
fn removing_more_than_held_fails_without_effect() {
    let mut p = pool();
    let mut pos = position(500);
    let mut arrays = split_arrays();
    let (p0, pos0, arrays0) = (p, pos, arrays.clone());
    let r = modify_liquidity(&mut p, &mut pos, &mut arrays, 1000, false, 100, 100, 42);
    assert_eq!(r, Err(ErrorCode::LiquidityUnderflow));
    assert_eq!(p, p0);
    assert_eq!(pos, pos0);
    assert_eq!(arrays, arrays0);
}

#[test]
fn zero_amount_is_invalid() {
    let mut p = pool();
    let mut pos = position(0);
    let mut arrays = split_arrays();
    let r = modify_liquidity(&mut p, &mut pos, &mut arrays, 0, true, 100, 100, 42);
    assert_eq!(r, Err(ErrorCode::InvalidInput));
}

#[test]
fn misaligned_bounds_are_invalid() {
    let mut p = pool();
    p.tick_spacing = 10;
    let mut pos = position(0);
    pos.tick_lower_index = -95; // not a multiple of the spacing
    pos.tick_upper_index = 100;
    let mut arrays = split_arrays();
    let r = modify_liquidity(&mut p, &mut pos, &mut arrays, 1000, true, 100, 100, 42);
    assert_eq!(r, Err(ErrorCode::InvalidInput));
}

#[test]
fn amount_without_signed_representation_overflows() {
    let mut p = pool();
    let mut pos = position(0);
    let mut arrays = split_arrays();
    let r = modify_liquidity(&mut p, &mut pos, &mut arrays, u128::MAX, true, 100, 100, 42);
    assert_eq!(r, Err(ErrorCode::ArithmeticOverflow));
}

#[test]
fn window_without_capacity_fails_resize() {
    let mut p = pool();
    let mut pos = position(0);
    let mut lower = window(-176);
    lower.capacity = 0;
    let mut arrays = TickArrays::Split(lower, window(88));
    let arrays0 = arrays.clone();
    let r = modify_liquidity(&mut p, &mut pos, &mut arrays, 1000, true, 100, 100, 42);
    assert_eq!(r, Err(ErrorCode::StorageResizeFailed));
    assert_eq!(arrays, arrays0);
    assert_eq!(p, pool());
}

#[test]
fn round_trip_restores_liquidity_state() {
    let mut p = pool();
    let mut pos = position(0);
    let mut arrays = split_arrays();
    modify_liquidity(&mut p, &mut pos, &mut arrays, 1000, true, 100, 100, 1).unwrap();
    modify_liquidity(&mut p, &mut pos, &mut arrays, 1000, false, 100, 100, 2).unwrap();
    assert_eq!(p.liquidity, 10_000);
    assert_eq!(pos.liquidity, 0);
    match &arrays {
        TickArrays::Split(lower, upper) => {
            let lt = get_tick(lower, -100);
            let ut = get_tick(upper, 100);
            assert_eq!(lt.liquidity_net, 0);
            assert_eq!(lt.liquidity_gross, 0);
            assert_eq!(ut.liquidity_net, 0);
            assert_eq!(ut.liquidity_gross, 0);
        },
        _ => panic!("expected split windows"),
    }
}

#[test]
fn shared_window_holds_both_bounds() {
    let mut p = pool();
    let mut pos = position(0);
    pos.tick_lower_index = 5;
    pos.tick_upper_index = 10;
    let mut arrays = TickArrays::Shared(window(0));
    modify_liquidity(&mut p, &mut pos, &mut arrays, 1000, true, 100, 100, 42).unwrap();
    match &arrays {
        TickArrays::Shared(a) => {
            assert_eq!(get_tick(a, 5).liquidity_net, 1000);
            assert_eq!(get_tick(a, 10).liquidity_net, -1000);
            assert_eq!(a.ticks.len(), 11);
        },
        _ => panic!("expected a shared window"),
    }
    // tick 0 lies inside [5, 10)? no: the pool tick 0 is below the range
    assert_eq!(p.liquidity, 10_000);
}

#[test]
fn grow_by_one_slot_preserves_stored_records() {
    let mut a = window(0);
    let first = TickRecord {
        index: 0,
        liquidity_net: 11,
        liquidity_gross: 12,
        fee_growth_outside_a: 13,
        fee_growth_outside_b: 14,
    };
    apply_tick_update(&mut a, &first).unwrap();
    assert_eq!(a.ticks.len(), 1);
    let second = TickRecord {
        index: 1,
        liquidity_net: 21,
        liquidity_gross: 22,
        fee_growth_outside_a: 23,
        fee_growth_outside_b: 24,
    };
    apply_tick_update(&mut a, &second).unwrap();
    assert_eq!(a.ticks.len(), 2);
    assert_eq!(get_tick(&a, 0), first);
    assert_eq!(get_tick(&a, 1), second);
}

#[test]
fn storage_update_is_idempotent() {
    let mut a = window(0);
    let rec = TickRecord {
        index: 3,
        liquidity_net: 5,
        liquidity_gross: 5,
        fee_growth_outside_a: 0,
        fee_growth_outside_b: 0,
    };
    apply_tick_update(&mut a, &rec).unwrap();
    let once = a.clone();
    apply_tick_update(&mut a, &rec).unwrap();
    assert_eq!(a, once);
}

#[test]
fn unmaterialized_tick_reads_as_uninitialized() {
    let a = window(0);
    let t = get_tick(&a, 7);
    assert_eq!(t.index, 7);
    assert_eq!(t.liquidity_net, 0);
    assert_eq!(t.liquidity_gross, 0);
}

#[test]
fn delta_conversion_signs_and_failures() {
    assert_eq!(convert_to_liquidity_delta(1000, true), Ok(1000));
    assert_eq!(convert_to_liquidity_delta(1000, false), Ok(-1000));
    assert_eq!(convert_to_liquidity_delta(0, true), Err(ErrorCode::InvalidInput));
    assert_eq!(
        convert_to_liquidity_delta(u128::MAX, true),
        Err(ErrorCode::ArithmeticOverflow)
    );
}

#[test]
fn stale_tick_state_is_detected_and_writes_nothing() {
    let mut p = pool();
    let mut pos = position(0);
    let lower = get_tick(&window(-176), -100);
    let upper = get_tick(&window(88), 100);
    let update = calculate_modify_liquidity(&p, &pos, &lower, &upper, 1000).unwrap();
    let (p0, pos0) = (p, pos);
    // hand the write pass a record that diverges from the projection
    let stale = TickRecord {
        liquidity_gross: 1,
        ..update.tick_lower_update
    };
    let r = sync_modify_liquidity_values(&mut p, &mut pos, &stale, &update.tick_upper_update, &update, 9);
    assert_eq!(r, Err(ErrorCode::StaleTickArrayState));
    assert_eq!(p, p0);
    assert_eq!(pos, pos0);
}

#[test]
fn read_pass_projects_without_mutating() {
    let p = pool();
    let pos = position(0);
    let lower = get_tick(&window(-176), -100);
    let upper = get_tick(&window(88), 100);
    let update = calculate_modify_liquidity(&p, &pos, &lower, &upper, 1000).unwrap();
    assert_eq!(update.position_liquidity, 1000);
    assert_eq!(update.pool_liquidity, 11_000);
    assert_eq!(update.tick_lower_update.liquidity_net, 1000);
    assert_eq!(update.tick_upper_update.liquidity_net, -1000);
    assert_eq!(update.fee_growth_checkpoint_a, 777);
    assert_eq!(update.fee_growth_checkpoint_b, 888);
}
