//! Slot arithmetic of the shared history delay line.
//!
//! The history is a ring buffer read in its own orientation: logical index 0
//! is the oldest sample and index `capacity - 1` the freshest (the dry input
//! just pushed). The ring keeps a write position: the physical slot that the
//! next push overwrites, which is also where the oldest sample sits. These
//! functions compute physical slots and capacities from plain values; the
//! samples themselves never pass through them.

use vstd::prelude::*;

verus! {

/// Largest history capacity the engine ever asks for: 2^18 samples.
pub const MAX_HISTORY_CAPACITY: usize = 262144;

/// Smallest history capacity the engine ever asks for: 256 samples.
pub const MIN_HISTORY_CAPACITY: usize = 256;

/// Physical slot of logical index `logical` in a ring of `capacity` slots
/// whose write position is `write_pos`.
pub open spec fn ring_slot(capacity: int, write_pos: int, logical: int) -> int {
    (write_pos + logical) % capacity
}

/// The delay (in samples behind the freshest sample) that a feedback write
/// at `delay` actually uses: it is clamped to the oldest sample.
pub open spec fn clamped_delay(capacity: int, delay: int) -> int {
    if delay < capacity - 1 { delay } else { capacity - 1 }
}

/// Physical slot of the sample `delay_samples` behind the freshest one, for
/// the serial feedback write. `delay_samples = 0` targets the just-written
/// dry input slot; oversized delays clamp to the oldest slot. `None` for an
/// empty ring, where the write is skipped.
pub fn feedback_slot(capacity: usize, write_pos: usize, delay_samples: usize) -> (r: Option<usize>)
    requires
        capacity == 0 || write_pos < capacity,
        write_pos + capacity <= usize::MAX,
        capacity > 0 ==> (write_pos + capacity - 1) % (capacity as int) + capacity <= usize::MAX,
    ensures
        r is None <==> capacity == 0,
        r is Some ==> r->0 == ring_slot(
            capacity as int,
            write_pos as int,
            capacity - 1 - clamped_delay(capacity as int, delay_samples as int),
        ),
        r is Some ==> r->0 < capacity,
        capacity > 0 && delay_samples < capacity - 1 ==> r->0 == (write_pos + capacity - 1
            - delay_samples) % (capacity as int),
        capacity > 0 && delay_samples >= capacity - 1 ==> r->0 == write_pos,
{
    if capacity == 0 {
        return None;
    }
    let delay = if delay_samples < capacity - 1 { delay_samples } else { capacity - 1 };
    let newest = (write_pos + capacity - 1) % capacity;
    let idx = (newest + capacity - delay) % capacity;
    proof {
        let c = capacity as int;
        let a = write_pos + c - 1;
        let b = c - delay;
        vstd::arithmetic::div_mod::lemma_add_mod_noop_right(b, a, c);
        vstd::arithmetic::div_mod::lemma_mod_add_multiples_vanish(write_pos + c - 1 - delay, c);
        assert(newest + b == b + a % c);
        assert(a + b == c + (write_pos + c - 1 - delay));
        vstd::arithmetic::div_mod::lemma_small_mod(write_pos as nat, capacity as nat);
    }
    Some(idx)
}

/// A feedback write with delay 0 lands on the freshest sample (the dry input
/// just pushed), and a delay of `capacity - 1` or more lands on the oldest
/// sample (the slot at the write position).
pub proof fn lemma_feedback_slot_ends(capacity: usize, write_pos: usize, delay: usize)
    requires
        capacity > 0,
        write_pos < capacity,
    ensures
        ring_slot(capacity as int, write_pos as int, capacity - 1 - clamped_delay(capacity as int, 0))
            == ring_slot(capacity as int, write_pos as int, capacity - 1),
        delay >= capacity - 1 ==> ring_slot(
            capacity as int,
            write_pos as int,
            capacity - 1 - clamped_delay(capacity as int, delay as int),
        ) == write_pos,
{
    vstd::arithmetic::div_mod::lemma_small_mod(write_pos as nat, capacity as nat);
}

/// A feedback write lands exactly `delay` samples behind the freshest
/// sample: for a delay below `capacity - 1` its slot is
/// `(write_pos + capacity - 1 - delay) mod capacity`; only delays of
/// `capacity - 1` or more are clamped, onto the oldest sample at the write
/// position.
pub proof fn lemma_feedback_lands_delay_behind_freshest(capacity: usize, write_pos: usize, delay: usize)
    requires
        capacity > 0,
        write_pos < capacity,
    ensures
        delay < capacity - 1 ==> ring_slot(
            capacity as int,
            write_pos as int,
            capacity - 1 - clamped_delay(capacity as int, delay as int),
        ) == (write_pos + capacity - 1 - delay) % (capacity as int),
        delay >= capacity - 1 ==> ring_slot(
            capacity as int,
            write_pos as int,
            capacity - 1 - clamped_delay(capacity as int, delay as int),
        ) == write_pos,
{
    vstd::arithmetic::div_mod::lemma_small_mod(write_pos as nat, capacity as nat);
}

/// The samples of a ring in logical order (oldest first), given its
/// physical slots and its write position.
pub open spec fn logical_view<T>(slots: Seq<T>, write_pos: int) -> Seq<T> {
    Seq::new(slots.len(), |j: int| slots[ring_slot(slots.len() as int, write_pos, j)])
}

/// Distinct logical indices of a ring live in distinct physical slots.
proof fn lemma_ring_slot_injective(capacity: int, write_pos: int, j: int, t: int)
    requires
        capacity > 0,
        0 <= write_pos,
        0 <= j < capacity,
        0 <= t < capacity,
        ring_slot(capacity, write_pos, j) == ring_slot(capacity, write_pos, t),
    ensures
        j == t,
{
    let a = write_pos + j;
    let b = write_pos + t;
    vstd::arithmetic::div_mod::lemma_fundamental_div_mod(a, capacity);
    vstd::arithmetic::div_mod::lemma_fundamental_div_mod(b, capacity);
    let qa = a / capacity;
    let qb = b / capacity;
    let d = j - t;
    assert(d == capacity * (qa - qb)) by (nonlinear_arith)
        requires
            a == capacity * qa + a % capacity,
            b == capacity * qb + b % capacity,
            a % capacity == b % capacity,
            d == a - b,
    ;
    assert(d == 0) by (nonlinear_arith)
        requires
            -capacity < d < capacity,
            d == capacity * (qa - qb),
            capacity > 0,
    ;
}

/// A feedback write touches exactly one sample: writing `x` into the slot
/// that `feedback_slot` names changes the ring's logical contents at index
/// `capacity - 1 - min(delay, capacity - 1)` (the sample `delay` behind the
/// freshest one, clamped to the oldest) to `x`, and leaves every other
/// sample, the capacity and the write position as they were.
pub proof fn lemma_feedback_write_touches_one_sample<T>(slots: Seq<T>, write_pos: usize, delay: usize, x: T)
    requires
        slots.len() > 0,
        write_pos < slots.len(),
    ensures
        ({
            let cap = slots.len() as int;
            let target = cap - 1 - clamped_delay(cap, delay as int);
            let slot = ring_slot(cap, write_pos as int, target);
            &&& 0 <= target < cap
            &&& 0 <= slot < cap
            &&& logical_view(slots.update(slot, x), write_pos as int) == logical_view(
                slots,
                write_pos as int,
            ).update(target, x)
        }),
{
    let cap = slots.len() as int;
    let target = cap - 1 - clamped_delay(cap, delay as int);
    let slot = ring_slot(cap, write_pos as int, target);
    let after = logical_view(slots.update(slot, x), write_pos as int);
    let expected = logical_view(slots, write_pos as int).update(target, x);
    assert forall|j: int| 0 <= j < cap implies after[j] == expected[j] by {
        let sj = ring_slot(cap, write_pos as int, j);
        vstd::arithmetic::div_mod::lemma_mod_bound(write_pos + j, cap);
        if sj == slot {
            lemma_ring_slot_injective(cap, write_pos as int, j, target);
        } else {
            assert(j != target);
        }
    }
    vstd::arithmetic::div_mod::lemma_mod_bound(write_pos + target, cap);
    assert(after =~= expected);
}

/// Capacity quantization: starting at `p`, double until the capacity
/// reaches the requested length or the 2^18 cap.
pub open spec fn quantize_from(requested: int, p: int) -> int
    decreases (if p < MAX_HISTORY_CAPACITY { MAX_HISTORY_CAPACITY - p } else { 0 }),
{
    if p <= 0 || p >= MAX_HISTORY_CAPACITY || p >= requested {
        p
    } else {
        quantize_from(requested, 2 * p)
    }
}

/// The history capacity for a requested length in samples: the requested
/// length raised to at least 256, rounded up to the next power of two, and
/// capped at 2^18 (particle reads wrap with a bit mask, so the capacity
/// must stay a power of two).
pub fn history_target_capacity(requested: usize) -> (r: usize)
    requires
        // rounding up to a power of two must not overflow
        requested <= usize::MAX / 2 + 1,
    ensures
        r == quantize_from(requested as int, MIN_HISTORY_CAPACITY as int),
        exists|e: nat| 8 <= e <= 18 && r == vstd::arithmetic::power2::pow2(e),
        MIN_HISTORY_CAPACITY <= r <= MAX_HISTORY_CAPACITY,
        r < MAX_HISTORY_CAPACITY ==> requested <= r,
        r > MIN_HISTORY_CAPACITY ==> r / 2 < requested,
{
    let mut p: usize = MIN_HISTORY_CAPACITY;
    let ghost mut e: nat = 8;
    proof {
        vstd::arithmetic::power2::lemma2_to64();
    }
    while p < requested && p < MAX_HISTORY_CAPACITY
        invariant
            8 <= e <= 18,
            p == vstd::arithmetic::power2::pow2(e),
            MIN_HISTORY_CAPACITY <= p <= MAX_HISTORY_CAPACITY,
            p > MIN_HISTORY_CAPACITY ==> p / 2 < requested,
            quantize_from(requested as int, MIN_HISTORY_CAPACITY as int) == quantize_from(
                requested as int,
                p as int,
            ),
            e == 18 <==> p == MAX_HISTORY_CAPACITY,
        decreases MAX_HISTORY_CAPACITY - p,
    {
        proof {
            vstd::arithmetic::power2::lemma2_to64();
            vstd::arithmetic::power2::lemma_pow2_unfold(e + 1);
            if e < 17 {
                vstd::arithmetic::power2::lemma_pow2_strictly_increases((e + 1) as nat, 18);
            }
        }
        p = p * 2;
        proof {
            e = e + 1;
        }
    }
    p
}

/// The part of an old history that survives a resize to `new_capacity`:
/// `(first logical index kept, number of samples kept)`. The freshest
/// `min(old, new)` samples are kept, in order, and become the freshest
/// samples of the new ring.
pub fn resize_tail(old_capacity: usize, new_capacity: usize) -> (r: (usize, usize))
    ensures
        r.1 == (if old_capacity <= new_capacity { old_capacity } else { new_capacity }),
        r.0 + r.1 == old_capacity,
{
    let keep = if old_capacity <= new_capacity { old_capacity } else { new_capacity };
    (old_capacity - keep, keep)
}

} // verus!
