//! Fixed-window tick storage and the storage-update pass.
//!
//! A tick array is a window of `TICK_ARRAY_WIDTH` tick slots for one pool,
//! covering the ticks `start, start + spacing, ...`.  Slots are materialized
//! lazily: the vector of records is an occupied prefix of the window and may
//! grow up to the array's allocated capacity, never shrink.  A tick whose
//! slot is not yet materialized reads as the uninitialized record.

use crate::errors::ErrorCode;
use crate::state::TickRecord;
use crate::tick_math::{MAX_TICK, MIN_TICK};
use crate::TICK_ARRAY_WIDTH;
use vstd::arithmetic::div_mod::{lemma_div_multiples_vanish, lemma_fundamental_div_mod};
use vstd::arithmetic::mul::{lemma_mul_inequality, lemma_mul_strict_inequality};
use vstd::prelude::*;

verus! {

/// One tick array: the owning pool, the first tick of the window, the tick
/// spacing of that pool, the slot capacity the backing region can hold, and
/// the materialized slots.
#[derive(Clone, Debug, PartialEq, Eq)]
pub struct TickArray {
    pub pool_id: u64,
    pub start_tick_index: i32,
    pub tick_spacing: u16,
    pub capacity: usize,
    pub ticks: Vec<TickRecord>,
}

impl TickArray {
    /// Well-formedness: positive spacing, the window lies inside the tick
    /// range, the materialized prefix fits the capacity, the capacity fits
    /// the window, and every materialized slot carries the tick index its
    /// position in the window dictates.
    pub open spec fn wf(self) -> bool {
        &&& 1 <= self.tick_spacing
        &&& self.capacity <= TICK_ARRAY_WIDTH
        &&& self.ticks.len() <= self.capacity
        &&& MIN_TICK <= self.start_tick_index
        &&& self.start_tick_index + (TICK_ARRAY_WIDTH as int) * (self.tick_spacing as int)
            <= MAX_TICK + 1
        &&& forall|k: int|
            0 <= k < self.ticks.len() ==> (#[trigger] self.ticks[k].index) as int
                == self.start_tick_index + k * (self.tick_spacing as int)
    }

    /// Whether `tick` falls on a slot of this window.
    pub open spec fn covers(self, tick: int) -> bool {
        &&& self.start_tick_index <= tick
        &&& tick < self.start_tick_index + (TICK_ARRAY_WIDTH as int) * (self.tick_spacing as int)
        &&& (tick - self.start_tick_index) % (self.tick_spacing as int) == 0
    }

    /// The slot position of `tick` inside the window.
    pub open spec fn offset_of(self, tick: int) -> int {
        (tick - self.start_tick_index) / (self.tick_spacing as int)
    }

    /// The record this window holds for `tick`: the materialized slot, or
    /// the uninitialized record when the slot has not been written yet.
    pub open spec fn tick_at(self, tick: int) -> TickRecord {
        if self.offset_of(tick) < self.ticks.len() {
            self.ticks[self.offset_of(tick)]
        } else {
            TickRecord {
                index: tick as i32,
                liquidity_net: 0,
                liquidity_gross: 0,
                fee_growth_outside_a: 0,
                fee_growth_outside_b: 0,
            }
        }
    }

    /// Whether the backing region is large enough for `tick`'s slot to be
    /// materialized, growing the occupied prefix if needed.
    pub open spec fn can_materialize(self, tick: int) -> bool {
        self.offset_of(tick) < self.capacity
    }

    /// The window metadata (everything but the slots) of two arrays agrees.
    pub open spec fn same_window(self, other: TickArray) -> bool {
        &&& self.pool_id == other.pool_id
        &&& self.start_tick_index == other.start_tick_index
        &&& self.tick_spacing == other.tick_spacing
        &&& self.capacity == other.capacity
    }
}

/// A covered tick decomposes exactly into the window start plus its offset
/// times the spacing; hence distinct covered ticks sit in distinct slots.
pub proof fn lemma_offset_exact(a: TickArray, tick: int)
    requires
        a.wf(),
        a.covers(tick),
    ensures
        tick == a.start_tick_index + a.offset_of(tick) * (a.tick_spacing as int),
        0 <= a.offset_of(tick) < TICK_ARRAY_WIDTH,
{
    let s = a.tick_spacing as int;
    let d = tick - a.start_tick_index;
    lemma_fundamental_div_mod(d, s);
    assert(d == s * (d / s));
    assert(a.offset_of(tick) * s == s * (d / s));
    if d / s >= TICK_ARRAY_WIDTH {
        lemma_mul_inequality(TICK_ARRAY_WIDTH as int, d / s, s);
        assert((TICK_ARRAY_WIDTH as int) * s <= (d / s) * s);
        assert(false);
    }
}

/// The record a window holds for a covered tick always carries that tick's
/// index, whether the slot is materialized or not.
pub proof fn lemma_tick_at_index(a: TickArray, tick: int)
    requires
        a.wf(),
        a.covers(tick),
    ensures
        a.tick_at(tick).index as int == tick,
{
    lemma_offset_exact(a, tick);
}

/// Computes the slot offset of a covered tick.
fn slot_offset(array: &TickArray, tick_index: i32) -> (off: usize)
    requires
        array.wf(),
        array.covers(tick_index as int),
    ensures
        off as int == array.offset_of(tick_index as int),
        off < TICK_ARRAY_WIDTH,
{
    proof {
        lemma_offset_exact(*array, tick_index as int);
    }
    let diff: u32 = (tick_index - array.start_tick_index) as u32;
    (diff / (array.tick_spacing as u32)) as usize
}

/// Reads the record for `tick_index` out of the window: the materialized
/// slot if there is one, the uninitialized record otherwise.
pub fn get_tick(array: &TickArray, tick_index: i32) -> (r: TickRecord)
    requires
        array.wf(),
        array.covers(tick_index as int),
    ensures
        r == array.tick_at(tick_index as int),
{
    let off: usize = slot_offset(array, tick_index);
    if off < array.ticks.len() {
        array.ticks[off]
    } else {
        TickRecord::uninitialized(tick_index)
    }
}

/// Whether the slot for `tick_index` is materialized or can be by growing
/// the occupied prefix within the allocated capacity.
pub fn has_room_for(array: &TickArray, tick_index: i32) -> (r: bool)
    requires
        array.wf(),
        array.covers(tick_index as int),
    ensures
        r == array.can_materialize(tick_index as int),
{
    let off: usize = slot_offset(array, tick_index);
    off < array.capacity
}

/// Materializes the slot for `rec.index` (growing the occupied prefix with
/// uninitialized records as needed) and writes `rec` into it.  Every other
/// covered tick keeps the record it had, and the window metadata does not
/// change.
pub fn apply_tick_update(array: &mut TickArray, rec: &TickRecord) -> (r: Result<(), ErrorCode>)
    requires
        old(array).wf(),
        old(array).covers(rec.index as int),
    ensures
        r is Ok <==> old(array).can_materialize(rec.index as int),
        r matches Err(e) ==> e == ErrorCode::StorageResizeFailed && *final(array) == *old(array),
        r is Ok ==> {
            &&& final(array).wf()
            &&& final(array).same_window(*old(array))
            &&& final(array).ticks.len() >= old(array).ticks.len()
            &&& final(array).tick_at(rec.index as int) == *rec
            &&& forall|t: int|
                old(array).covers(t) && t != rec.index as int ==> final(array).tick_at(t)
                    == old(array).tick_at(t)
        },
{
    let off: usize = slot_offset(array, rec.index);
    if off >= array.capacity {
        return Err(ErrorCode::StorageResizeFailed);
    }
    proof {
        lemma_offset_exact(*array, rec.index as int);
    }
    let ghost pre = *array;
    while array.ticks.len() < off + 1
        invariant
            array.pool_id == pre.pool_id,
            array.start_tick_index == pre.start_tick_index,
            array.tick_spacing == pre.tick_spacing,
            array.capacity == pre.capacity,
            pre.wf(),
            off < pre.capacity,
            array.ticks.len() >= pre.ticks.len(),
            array.ticks.len() <= off + 1 || array.ticks == pre.ticks,
            forall|k: int| 0 <= k < pre.ticks.len() ==> array.ticks[k] == pre.ticks[k],
            forall|k: int|
                0 <= k < array.ticks.len() ==> (#[trigger] array.ticks[k].index) as int
                    == pre.start_tick_index + k * (pre.tick_spacing as int),
            forall|k: int|
                pre.ticks.len() <= k < array.ticks.len() ==> {
                    &&& (#[trigger] array.ticks[k].liquidity_net) == 0
                    &&& array.ticks[k].liquidity_gross == 0
                    &&& array.ticks[k].fee_growth_outside_a == 0
                    &&& array.ticks[k].fee_growth_outside_b == 0
                },
        decreases off + 1 - array.ticks.len(),
    {
        let k: usize = array.ticks.len();
        proof {
            lemma_mul_inequality(k as int, TICK_ARRAY_WIDTH as int, pre.tick_spacing as int);
        }
        let idx: i32 = array.start_tick_index + (k as i32) * (array.tick_spacing as i32);
        let filler = TickRecord::uninitialized(idx);
        array.ticks.push(filler);
    }
    array.ticks[off] = *rec;
    proof {
        let s = pre.tick_spacing as int;
        lemma_offset_exact(pre, rec.index as int);
        assert forall|t: int| pre.covers(t) && t != rec.index as int implies array.tick_at(t)
            == pre.tick_at(t) by {
            lemma_offset_exact(pre, t);
            let ot = pre.offset_of(t);
            assert(t == pre.start_tick_index + ot * s);
            assert(rec.index as int == pre.start_tick_index + (off as int) * s);
            assert(ot != off as int);
            if ot < array.ticks.len() {
                assert(array.ticks[ot].index as int == pre.start_tick_index + ot * s);
            }
            assert(array.tick_at(t) =~= pre.tick_at(t));
        }
    }
    Ok(())
}

} // verus!
