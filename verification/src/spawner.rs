//! Spawn timing state machine.
//!
//! Only the *timing and sequence* state lives here; the shape of a spawn
//! (arithmetic position sequence + jitter + exponential strength decay) is the
//! engine's spawn rule.

use vstd::prelude::*;

verus! {

/// The interval actually used by a poll: zero is treated as one sample.
pub open spec fn effective_interval(interval: usize) -> int {
    if interval == 0 { 1 } else { interval as int }
}

/// One poll at sample `now` of a clock due at `next_due`: whether it fires,
/// and the due time afterwards.
pub open spec fn poll_step(next_due: int, now: int, interval: usize) -> (bool, int) {
    if now < next_due {
        (false, next_due)
    } else {
        (true, now + effective_interval(interval))
    }
}

/// The due time of a clock that started due at `start_due` after it was
/// polled once at every sample `0, 1, .., n - 1`.
pub open spec fn due_after_polls(start_due: int, interval: usize, n: nat) -> int
    decreases n,
{
    if n == 0 {
        start_due
    } else {
        let prev = (n - 1) as nat;
        poll_step(due_after_polls(start_due, interval, prev), prev as int, interval).1
    }
}

/// Whether the poll at sample `n` fires, for a clock polled once at every
/// sample from 0 on.
pub open spec fn fires_at(start_due: int, interval: usize, n: nat) -> bool {
    poll_step(due_after_polls(start_due, interval, n), n as int, interval).0
}

/// One poll of a periodic schedule at sample `now`: when `now` has reached
/// `*next_due`, the schedule fires and is due again `interval` (at least one)
/// samples later; otherwise nothing changes. Used by the spawn clock, the
/// random-walk step, the peak-follow update and the texture refresh.
pub fn poll_schedule(next_due: &mut usize, now: usize, interval: usize) -> (fired: bool)
    requires
        *old(next_due) <= now ==> now + effective_interval(interval) <= usize::MAX,
    ensures
        (fired, *final(next_due) as int) == poll_step(*old(next_due) as int, now as int, interval),
{
    if now < *next_due {
        return false;
    }
    let step = if interval == 0 { 1 } else { interval };
    *next_due = now + step;
    true
}

/// Spawn notification posted once per born particle, so the control surface
/// can light a dot for it.
#[derive(Clone, Copy, Debug, PartialEq, Eq)]
pub struct SpawnEvent {
    /// Lifetime of the new particle in samples.
    pub lifetime_samples: usize,
    /// Live particles right after the spawn.
    pub live: usize,
}

/// A call on a spawn clock, as far as its generation counter is concerned:
/// `bump_sequence`, a call that leaves the counter alone (`poll`,
/// `sequence_index`), or `reset`.
pub enum ClockCall {
    Bump,
    Keep,
    Reset,
}

/// The generation counter after one call.
pub open spec fn generation_step(g: usize, call: ClockCall) -> usize {
    match call {
        ClockCall::Bump => vstd::wrapping::usize_specs::wrapping_add(g, 1),
        ClockCall::Keep => g,
        ClockCall::Reset => 0,
    }
}

/// The generation counter after a sequence of calls, starting from `g0`.
pub open spec fn generation_after(g0: usize, calls: Seq<ClockCall>) -> usize
    decreases calls.len(),
{
    if calls.len() == 0 {
        g0
    } else {
        generation_step(generation_after(g0, calls.drop_last()), calls.last())
    }
}

/// Number of `Bump` calls after the last `Reset` (all of them if none).
pub open spec fn bumps_since_reset(calls: Seq<ClockCall>) -> nat
    decreases calls.len(),
{
    if calls.len() == 0 {
        0
    } else {
        match calls.last() {
            ClockCall::Bump => bumps_since_reset(calls.drop_last()) + 1,
            ClockCall::Keep => bumps_since_reset(calls.drop_last()),
            ClockCall::Reset => 0,
        }
    }
}

/// Spawn clock plus the generation counter of the spawn rule.
#[derive(Clone, Debug)]
pub struct Spawner {
    next_spawn_at: usize,
    sequence_index: usize,
}

impl Spawner {
    /// The sample at or after which the next poll fires.
    pub closed spec fn next_due(&self) -> usize {
        self.next_spawn_at
    }

    /// The current generation index `n`.
    pub closed spec fn generation(&self) -> usize {
        self.sequence_index
    }

    /// Creates a new spawner due immediately at sample 0.
    pub fn new() -> (r: Self)
        ensures
            r.next_due() == 0,
            r.generation() == 0,
    {
        Spawner { next_spawn_at: 0, sequence_index: 0 }
    }

    /// Resets timing; next spawn happens at `at`, the generation restarts at 0.
    pub fn reset(&mut self, at: usize)
        ensures
            final(self).next_due() == at,
            final(self).generation() == generation_step(old(self).generation(), ClockCall::Reset),
    {
        self.next_spawn_at = at;
        self.sequence_index = 0;
    }

    /// Returns true once a spawn is due at `sample_count` and schedules the
    /// next due time `interval_samples` (at least one) samples later. Spawns
    /// are dropped (not queued) when nobody polls.
    pub fn poll(&mut self, sample_count: usize, interval_samples: usize) -> (fired: bool)
        requires
            old(self).next_due() <= sample_count ==> sample_count + effective_interval(
                interval_samples,
            ) <= usize::MAX,
        ensures
            (fired, final(self).next_due() as int) == poll_step(
                old(self).next_due() as int,
                sample_count as int,
                interval_samples,
            ),
            final(self).generation() == generation_step(old(self).generation(), ClockCall::Keep),
    {
        poll_schedule(&mut self.next_spawn_at, sample_count, interval_samples)
    }

    /// Advances the generation index (call after a spawn is accepted); it
    /// wraps around at the top of the usize range.
    pub fn bump_sequence(&mut self)
        ensures
            final(self).generation() == generation_step(old(self).generation(), ClockCall::Bump),
            final(self).next_due() == old(self).next_due(),
    {
        self.sequence_index = self.sequence_index.wrapping_add(1);
    }

    /// Current generation index `n` (0-based).
    pub fn sequence_index(&self) -> (r: usize)
        ensures
            r == self.generation(),
    {
        self.sequence_index
    }
}

impl Default for Spawner {
    fn default() -> (r: Self)
        ensures
            r.next_due() == 0,
            r.generation() == 0,
    {
        Spawner::new()
    }
}

/// The generation counter counts bumps: after any sequence of calls on a
/// new (or just reset) spawner, in any order and interleaved with any polls
/// and reads, the generation is the number of `bump_sequence` calls since
/// the last `reset`, modulo 2^(usize bits).
pub proof fn lemma_generation_counts_bumps(calls: Seq<ClockCall>)
    ensures
        generation_after(0, calls) as int == bumps_since_reset(calls) as int % (usize::MAX as int + 1),
    decreases calls.len(),
{
    let m = usize::MAX as int + 1;
    if calls.len() == 0 {
        vstd::arithmetic::div_mod::lemma_small_mod(0, m as nat);
    } else {
        let prev = calls.drop_last();
        lemma_generation_counts_bumps(prev);
        let b = bumps_since_reset(prev) as int;
        vstd::arithmetic::div_mod::lemma_mod_bound(b, m);
        match calls.last() {
            ClockCall::Bump => {
                lemma_mod_succ(b, m);
            },
            ClockCall::Keep => {},
            ClockCall::Reset => {
                vstd::arithmetic::div_mod::lemma_small_mod(0, m as nat);
            },
        }
    }
}

/// `(n + 1) % k` steps from `n % k`: it grows by one and wraps to 0 at `k`.
proof fn lemma_mod_succ(n: int, k: int)
    requires
        n >= 0,
        k > 0,
    ensures
        (n + 1) % k == (if n % k + 1 == k { 0 } else { n % k + 1 }),
{
    vstd::arithmetic::div_mod::lemma_fundamental_div_mod(n, k);
    vstd::arithmetic::div_mod::lemma_mod_bound(n, k);
    let q = n / k;
    let r = n % k;
    if r + 1 == k {
        assert(n + 1 == (q + 1) * k + 0) by (nonlinear_arith)
            requires
                n == k * q + r,
                r + 1 == k,
        ;
        vstd::arithmetic::div_mod::lemma_fundamental_div_mod_converse(n + 1, k, q + 1, 0);
    } else {
        assert(n + 1 == q * k + (r + 1)) by (nonlinear_arith)
            requires
                n == k * q + r,
        ;
        vstd::arithmetic::div_mod::lemma_fundamental_div_mod_converse(n + 1, k, q, r + 1);
    }
}

/// The due time of a clock started at 0 and polled at every sample is the
/// next multiple of the interval at or after the current sample.
proof fn lemma_due_is_next_multiple(interval: usize, n: nat)
    ensures
        due_after_polls(0, interval, n) == (if n as int % effective_interval(interval) == 0 {
            n as int
        } else {
            n as int - n as int % effective_interval(interval) + effective_interval(interval)
        }),
    decreases n,
{
    let k = effective_interval(interval);
    if n > 0 {
        let p = (n - 1) as nat;
        let pi = p as int;
        lemma_due_is_next_multiple(interval, p);
        lemma_mod_succ(pi, k);
        vstd::arithmetic::div_mod::lemma_mod_bound(pi, k);
        let dp = due_after_polls(0, interval, p);
        assert(due_after_polls(0, interval, n) == poll_step(dp, pi, interval).1);
        let r = pi % k;
        if r == 0 {
            assert(dp == pi);
            assert(due_after_polls(0, interval, n) == pi + k);
        } else {
            assert(dp == pi - r + k);
            assert(due_after_polls(0, interval, n) == pi - r + k);
        }
        assert(n as int == pi + 1);
        assert((pi + 1) % k == n as int % k);
    } else {
        assert(0int % k == 0) by (nonlinear_arith)
            requires
                k > 0,
        ;
    }
}

/// Polling a spawner that starts due at sample 0 once at every sample, with
/// a fixed interval, fires at sample 0 and then exactly every
/// `max(interval, 1)` samples: the spawn clock runs on a regular grid.
pub proof fn lemma_poll_fires_on_regular_grid(interval: usize, n: nat)
    ensures
        fires_at(0, interval, n) <==> n as int % effective_interval(interval) == 0,
{
    lemma_due_is_next_multiple(interval, n);
    vstd::arithmetic::div_mod::lemma_mod_bound(n as int, effective_interval(interval));
}

/// Between two consecutive firings of a clock polled at every sample, no
/// poll fires, and the gap is exactly `max(interval, 1)` samples.
pub proof fn lemma_poll_gap_is_interval(interval: usize, n: nat)
    requires
        fires_at(0, interval, n),
    ensures
        forall|m: nat| n < m < n + effective_interval(interval) ==> !fires_at(0, interval, m),
        fires_at(0, interval, (n + effective_interval(interval)) as nat),
{
    let k = effective_interval(interval);
    lemma_poll_fires_on_regular_grid(interval, n);
    assert forall|m: nat| n < m < n + k implies !fires_at(0, interval, m) by {
        lemma_poll_fires_on_regular_grid(interval, m);
        let ni = n as int;
        let mi = m as int;
        vstd::arithmetic::div_mod::lemma_fundamental_div_mod(ni, k);
        vstd::arithmetic::div_mod::lemma_fundamental_div_mod(mi, k);
        if mi % k == 0 {
            let qn = ni / k;
            let qm = mi / k;
            let d = mi - ni;
            assert(d == k * (qm - qn)) by (nonlinear_arith)
                requires
                    ni == k * qn,
                    mi == k * qm,
                    d == mi - ni,
            ;
            assert(false) by (nonlinear_arith)
                requires
                    0 < d < k,
                    d == k * (qm - qn),
                    k > 0,
            ;
        }
    }
    lemma_poll_fires_on_regular_grid(interval, (n + k) as nat);
    vstd::arithmetic::div_mod::lemma_mod_add_multiples_vanish(n as int, k);
}

} // verus!
