//! Integer bookkeeping of the particle cloud engine.
//!
//! The engine's per-sample decisions that involve no audio samples live
//! here: which sample rate to run at, the sample clock, the free-running
//! spawn clock, spawn admission into the particle pool, the spawn counter
//! and the peak-follow update schedule.

use vstd::prelude::*;
use crate::pool::{ParticlePool, DEFAULT_POOL_CAPACITY};
use crate::pool::{occupied, lemma_take_and_return_restores_pool};
use crate::spawner::{generation_step, poll_schedule, poll_step, ClockCall, Spawner};

verus! {

/// Sample rate used when the host reports none (or an untrusted one).
pub const FALLBACK_SAMPLE_RATE: usize = 48_000;

/// The sample rate to run at: the host's when it is trusted and non-zero,
/// otherwise 48 kHz.
pub open spec fn effective_sample_rate(trustable: bool, reported: usize) -> usize {
    if trustable && reported != 0 { reported } else { FALLBACK_SAMPLE_RATE }
}

/// Whether the GUI counters are refreshed at this sample count: every 1024
/// samples, a cheap periodic snapshot.
pub fn stats_snapshot_due(sample_count: usize) -> (r: bool)
    ensures
        r == (sample_count % 1024 == 0),
{
    let masked = sample_count & 1023usize;
    assert(masked == sample_count % 1024) by (bit_vector)
        requires
            masked == sample_count & 1023usize,
    ;
    masked == 0
}

/// Whether a due spawn is admitted: fewer than `limit` particles and fewer
/// than the pool capacity are alive.
pub open spec fn spawn_admitted<P>(a: CloudState<P>, spawn_due: bool, limit: usize) -> bool {
    spawn_due && a.particles().live() < limit && a.particles().live() < DEFAULT_POOL_CAPACITY
}

/// What the spawn phase of one sample does to the state: a due spawn
/// advances the generation; an admitted one stores one newborn particle in
/// the most recently freed slot (or a new slot) and counts its birth;
/// nothing else changes.
pub open spec fn spawn_phase_post<P>(
    a: CloudState<P>,
    b: CloudState<P>,
    spawn_due: bool,
    limit: usize,
    born: Option<usize>,
) -> bool {
    let admitted = spawn_admitted(a, spawn_due, limit);
    let add = if admitted { 1int } else { 0int };
    &&& b.wf()
    &&& (born is Some) == admitted
    &&& b.born() == a.born() + add
    &&& b.particles().live() == a.particles().live() + add
    &&& b.clock().generation() == (if spawn_due {
        generation_step(a.clock().generation(), ClockCall::Bump)
    } else {
        a.clock().generation()
    })
    &&& b.clock().next_due() == a.clock().next_due()
    &&& b.samples() == a.samples()
    &&& b.rate() == a.rate()
    &&& b.peak_due() == a.peak_due()
    &&& !admitted ==> b.particles() == a.particles()
    &&& admitted ==> {
        let idx = born->0;
        &&& idx < b.particles().slots().len()
        &&& b.particles().slots()[idx as int] is Some
        &&& a.particles().free_list().len() > 0 ==> {
            &&& idx == a.particles().free_list().last()
            &&& b.particles().free_list() == a.particles().free_list().drop_last()
            &&& b.particles().slots() == a.particles().slots().update(
                idx as int,
                b.particles().slots()[idx as int],
            )
        }
        &&& a.particles().free_list().len() == 0 ==> {
            &&& idx == a.particles().slots().len()
            &&& b.particles().free_list() == a.particles().free_list()
            &&& b.particles().slots() == a.particles().slots().push(b.particles().slots()[idx as int])
        }
    }
}

/// What the particle pass of one sample does to the pool bookkeeping: a
/// survivor stays in its slot, a particle that dies leaves its slot vacant
/// and the slot is appended to the free list, in slot order. No slot
/// becomes live and nothing else changes.
pub open spec fn particle_pass_post<P>(a: CloudState<P>, b: CloudState<P>) -> bool {
    let fa = a.particles().free_list();
    let fb = b.particles().free_list();
    let sa = a.particles().slots();
    let sb = b.particles().slots();
    &&& b.wf()
    &&& sb.len() == sa.len()
    &&& forall|k: int| 0 <= k < sb.len() && (#[trigger] sb[k]) is Some ==> sa[k] is Some
    &&& fa.len() <= fb.len()
    &&& fb.subrange(0, fa.len() as int) == fa
    &&& forall|p: int, q: int| fa.len() <= p < q < fb.len() ==> (#[trigger] fb[p]) < (#[trigger] fb[q])
    &&& forall|p: int| fa.len() <= p < fb.len() ==> sa[(#[trigger] fb[p]) as int] is Some
    &&& b.particles().live() <= a.particles().live()
    &&& b.clock() == a.clock()
    &&& b.samples() == a.samples()
    &&& b.rate() == a.rate()
    &&& b.born() == a.born()
    &&& b.peak_due() == a.peak_due()
}

/// One step of the particle pass at slot `k`, with `trace[k]` the pass
/// state before the slot and `trace[k + 1]` after it: a vacant slot is
/// skipped and stays vacant; a live particle `p` is handed to `visit`
/// together with the pass state, and the slot afterwards holds what `visit`
/// returned for it (the particle that lives on, or nothing) while the pass
/// state becomes the one `visit` returned.
pub open spec fn slot_visit<S, P, G: Fn(S, P) -> (S, Option<P>)>(
    visit: G,
    trace: Seq<S>,
    k: int,
    before: Option<P>,
    after: Option<P>,
) -> bool {
    match before {
        None => after is None && trace[k + 1] == trace[k],
        Some(p) => call_ensures(visit, (trace[k], p), (trace[k + 1], after)),
    }
}

/// The particle pass visits the slots in order, each live particle exactly
/// once, threading the pass state from `first` to `last`: there is a
/// sequence of pass states, one before each slot and one after the last,
/// such that every slot is one `slot_visit` step from `sa` to `sb`.
pub open spec fn visits_in_slot_order<S, P, G: Fn(S, P) -> (S, Option<P>)>(
    visit: G,
    sa: Seq<Option<P>>,
    sb: Seq<Option<P>>,
    first: S,
    last: S,
) -> bool {
    exists|trace: Seq<S>|
        {
            &&& trace.len() == sa.len() + 1
            &&& trace[0] == first
            &&& trace[sa.len() as int] == last
            &&& forall|k: int|
                0 <= k < sa.len() ==> #[trigger] slot_visit(visit, trace, k, sa[k], sb[k])
        }
}

/// A trusted host's non-zero rate is adopted as it is; the 48 kHz fallback
/// applies only to an untrusted host or a reported rate of zero.
pub proof fn lemma_host_rate_adopted(trustable: bool, reported: usize)
    ensures
        trustable && reported != 0 ==> effective_sample_rate(trustable, reported) == reported,
        !trustable || reported == 0 ==> effective_sample_rate(trustable, reported) == 48_000,
{
}

/// A due spawn is admitted exactly while fewer than `limit` and fewer than
/// the pool capacity particles are alive: then one particle is born and the
/// live count grows by one; otherwise nothing is born and the pool is left
/// as it was.
pub proof fn lemma_due_spawn_admitted_below_limit<P>(
    a: CloudState<P>,
    b: CloudState<P>,
    limit: usize,
    born: Option<usize>,
)
    requires
        a.wf(),
        spawn_phase_post(a, b, true, limit, born),
    ensures
        a.particles().live() < limit && a.particles().live() < DEFAULT_POOL_CAPACITY ==> {
            &&& born is Some
            &&& b.particles().live() == a.particles().live() + 1
            &&& b.born() == a.born() + 1
        },
        !(a.particles().live() < limit && a.particles().live() < DEFAULT_POOL_CAPACITY) ==> {
            &&& born is None
            &&& b.particles() == a.particles()
            &&& b.born() == a.born()
        },
{
}

/// One engine sample keeps the cloud within its limit: if at most
/// `min(limit, pool capacity)` particles are alive before the spawn phase,
/// the same bound holds after the spawn phase and the particle pass, and at
/// most one particle was born (exactly one when the spawn was admitted).
pub proof fn lemma_sample_step_keeps_live_bound<P>(
    a: CloudState<P>,
    b: CloudState<P>,
    c: CloudState<P>,
    spawn_due: bool,
    limit: usize,
    born: Option<usize>,
)
    requires
        a.wf(),
        spawn_phase_post(a, b, spawn_due, limit, born),
        particle_pass_post(b, c),
        a.particles().live() <= limit,
        a.particles().live() <= DEFAULT_POOL_CAPACITY,
    ensures
        c.particles().live() <= limit,
        c.particles().live() <= DEFAULT_POOL_CAPACITY,
        c.born() == a.born() + (if born is Some { 1int } else { 0int }),
        a.born() <= c.born() <= a.born() + 1,
{
}

/// The integer state of the cloud: particle pool, spawn clock and counters.
pub struct CloudState<P> {
    pool: ParticlePool<P>,
    spawner: Spawner,
    sample_count: usize,
    sample_rate: usize,
    spawn_count: usize,
    next_peak_update: usize,
}

impl<P> CloudState<P> {
    /// The particle pool.
    pub closed spec fn particles(&self) -> ParticlePool<P> {
        self.pool
    }

    /// The spawn clock and generation counter.
    pub closed spec fn clock(&self) -> Spawner {
        self.spawner
    }

    /// Samples processed.
    pub closed spec fn samples(&self) -> usize {
        self.sample_count
    }

    /// Current sample rate.
    pub closed spec fn rate(&self) -> usize {
        self.sample_rate
    }

    /// Particles born.
    pub closed spec fn born(&self) -> usize {
        self.spawn_count
    }

    /// Sample at or after which the peak-follow target is recomputed.
    pub closed spec fn peak_due(&self) -> usize {
        self.next_peak_update
    }

    /// State invariant: the pool is well formed.
    pub open spec fn wf(&self) -> bool {
        self.particles().wf()
    }

    /// Fresh state at `sample_rate`: no particles, spawn due at sample 0,
    /// counters at zero, peak update due immediately.
    pub fn new(sample_rate: usize) -> (r: Self)
        ensures
            r.wf(),
            r.particles().slots().len() == 0,
            r.particles().free_list().len() == 0,
            r.clock().next_due() == 0,
            r.clock().generation() == 0,
            r.samples() == 0,
            r.rate() == sample_rate,
            r.born() == 0,
            r.peak_due() == 0,
    {
        CloudState {
            pool: ParticlePool::new(),
            spawner: Spawner::new(),
            sample_count: 0,
            sample_rate,
            spawn_count: 0,
            next_peak_update: 0,
        }
    }

    /// Number of live particles right now.
    pub fn live_count(&self) -> (r: usize)
        requires
            self.wf(),
        ensures
            r == self.particles().live(),
            r <= DEFAULT_POOL_CAPACITY,
    {
        self.pool.live_count()
    }

    /// Total particles born since construction / last clear.
    pub fn spawned(&self) -> (r: usize)
        ensures
            r == self.born(),
    {
        self.spawn_count
    }

    /// Samples processed since construction / last clear.
    pub fn sample_count(&self) -> (r: usize)
        ensures
            r == self.samples(),
    {
        self.sample_count
    }

    /// The sample rate the engine is currently running at.
    pub fn sample_rate(&self) -> (r: usize)
        ensures
            r == self.rate(),
    {
        self.sample_rate
    }

    /// Adopts the host's sample rate when it is trusted and non-zero (48 kHz
    /// otherwise). Returns true when the rate changed, so the caller can
    /// rebuild rate-dependent state.
    pub fn update_sample_rate(&mut self, trustable: bool, reported: usize) -> (changed: bool)
        ensures
            final(self).rate() == effective_sample_rate(trustable, reported),
            trustable && reported != 0 ==> final(self).rate() == reported,
            !trustable || reported == 0 ==> final(self).rate() == 48_000,
            changed == (old(self).rate() != effective_sample_rate(trustable, reported)),
            final(self).particles() == old(self).particles(),
            final(self).clock() == old(self).clock(),
            final(self).samples() == old(self).samples(),
            final(self).born() == old(self).born(),
            final(self).peak_due() == old(self).peak_due(),
    {
        let sr = if trustable && reported != 0 { reported } else { FALLBACK_SAMPLE_RATE };
        if sr != self.sample_rate {
            self.sample_rate = sr;
            true
        } else {
            false
        }
    }

    /// Counts one more processed sample.
    pub fn begin_sample(&mut self)
        requires
            old(self).samples() < usize::MAX,
        ensures
            final(self).samples() == old(self).samples() + 1,
            final(self).particles() == old(self).particles(),
            final(self).clock() == old(self).clock(),
            final(self).rate() == old(self).rate(),
            final(self).born() == old(self).born(),
            final(self).peak_due() == old(self).peak_due(),
    {
        self.sample_count = self.sample_count + 1;
    }

    /// Free-running spawn clock: polls the spawner at the current sample
    /// with an interval of `interval_samples` (at least one).
    pub fn poll_free_run(&mut self, interval_samples: usize) -> (due: bool)
        requires
            old(self).clock().next_due() <= old(self).samples() ==> old(self).samples()
                + crate::spawner::effective_interval(interval_samples) <= usize::MAX,
        ensures
            (due, final(self).clock().next_due() as int) == poll_step(
                old(self).clock().next_due() as int,
                old(self).samples() as int,
                interval_samples,
            ),
            final(self).clock().generation() == old(self).clock().generation(),
            final(self).particles() == old(self).particles(),
            final(self).samples() == old(self).samples(),
            final(self).rate() == old(self).rate(),
            final(self).born() == old(self).born(),
            final(self).peak_due() == old(self).peak_due(),
    {
        self.spawner.poll(self.sample_count, interval_samples)
    }

    /// A spawn is due: the generation advances whether or not a particle is
    /// born. Returns the new generation index when the pool admits one more
    /// particle (fewer than `limit` and fewer than the pool capacity live);
    /// the caller then builds that particle and hands it to `accept`.
    pub fn begin_spawn(&mut self, limit: usize) -> (r: Option<usize>)
        requires
            old(self).wf(),
        ensures
            final(self).wf(),
            final(self).clock().generation() == generation_step(
                old(self).clock().generation(),
                ClockCall::Bump,
            ),
            final(self).clock().next_due() == old(self).clock().next_due(),
            r is Some <==> (old(self).particles().live() < limit && old(self).particles().live()
                < DEFAULT_POOL_CAPACITY),
            r is Some ==> r->0 == final(self).clock().generation(),
            final(self).particles() == old(self).particles(),
            final(self).samples() == old(self).samples(),
            final(self).rate() == old(self).rate(),
            final(self).born() == old(self).born(),
            final(self).peak_due() == old(self).peak_due(),
    {
        self.spawner.bump_sequence();
        if self.pool.admits(limit) {
            Some(self.spawner.sequence_index())
        } else {
            None
        }
    }

    /// Stores an admitted newborn particle (see `begin_spawn`) and counts
    /// the birth; returns its slot.
    pub fn accept(&mut self, p: P) -> (idx: usize)
        requires
            old(self).wf(),
            old(self).particles().live() < DEFAULT_POOL_CAPACITY,
            old(self).born() < usize::MAX,
        ensures
            final(self).wf(),
            final(self).born() == old(self).born() + 1,
            final(self).particles().live() == old(self).particles().live() + 1,
            idx < final(self).particles().slots().len(),
            final(self).particles().slots()[idx as int] == Some(p),
            old(self).particles().free_list().len() > 0 ==> {
                &&& idx == old(self).particles().free_list().last()
                &&& final(self).particles().free_list() == old(
                    self,
                ).particles().free_list().drop_last()
                &&& final(self).particles().slots() == old(self).particles().slots().update(
                    idx as int,
                    Some(p),
                )
            },
            old(self).particles().free_list().len() == 0 ==> {
                &&& idx == old(self).particles().slots().len()
                &&& final(self).particles().free_list() == old(self).particles().free_list()
                &&& final(self).particles().slots() == old(self).particles().slots().push(Some(p))
            },
            final(self).clock() == old(self).clock(),
            final(self).samples() == old(self).samples(),
            final(self).rate() == old(self).rate(),
            final(self).peak_due() == old(self).peak_due(),
    {
        let idx = self.pool.insert(p);
        self.spawn_count = self.spawn_count + 1;
        idx
    }

    /// Whether the shared peak-follow target is recomputed at this sample;
    /// when it is, the next update is due `update_samples` (at least one)
    /// samples later.
    pub fn peak_update_due(&mut self, update_samples: usize) -> (due: bool)
        requires
            old(self).peak_due() <= old(self).samples() ==> old(self).samples()
                + crate::spawner::effective_interval(update_samples) <= usize::MAX,
        ensures
            (due, final(self).peak_due() as int) == poll_step(
                old(self).peak_due() as int,
                old(self).samples() as int,
                update_samples,
            ),
            final(self).particles() == old(self).particles(),
            final(self).clock() == old(self).clock(),
            final(self).samples() == old(self).samples(),
            final(self).rate() == old(self).rate(),
            final(self).born() == old(self).born(),
    {
        poll_schedule(&mut self.next_peak_update, self.sample_count, update_samples)
    }

    /// Number of particle slots (live or vacant), in processing order.
    pub fn slot_count(&self) -> (r: usize)
        ensures
            r == self.particles().slots().len(),
    {
        self.pool.slot_count()
    }

    /// The particle in slot `i`, if that slot is live.
    pub fn particle(&self, i: usize) -> (r: Option<&P>)
        ensures
            r is Some <==> (i < self.particles().slots().len()
                && self.particles().slots()[i as int] is Some),
            r is Some ==> *r->0 == self.particles().slots()[i as int]->0,
    {
        self.pool.get(i)
    }

    /// Takes the particle out of slot `i` for processing; the slot is
    /// vacant (and on the free list) until `return_particle` puts it back,
    /// which a dying particle never does.
    pub fn take_particle(&mut self, i: usize) -> (r: Option<P>)
        requires
            old(self).wf(),
        ensures
            final(self).wf(),
            i < old(self).particles().slots().len() && old(self).particles().slots()[i as int] is Some ==> {
                &&& r == old(self).particles().slots()[i as int]
                &&& final(self).particles().slots() == old(self).particles().slots().update(
                    i as int,
                    None,
                )
                &&& final(self).particles().free_list() == old(self).particles().free_list().push(i)
            },
            !(i < old(self).particles().slots().len() && old(self).particles().slots()[i as int] is Some)
                ==> r is None && final(self).particles() == old(self).particles(),
            final(self).clock() == old(self).clock(),
            final(self).samples() == old(self).samples(),
            final(self).rate() == old(self).rate(),
            final(self).born() == old(self).born(),
            final(self).peak_due() == old(self).peak_due(),
    {
        self.pool.remove(i)
    }

    /// Puts a still-living particle back into the slot it was taken from.
    pub fn return_particle(&mut self, i: usize, p: P)
        requires
            old(self).wf(),
            i < old(self).particles().slots().len(),
            old(self).particles().slots()[i as int] is None,
        ensures
            final(self).wf(),
            final(self).particles().slots() == old(self).particles().slots().update(i as int, Some(p)),
            exists|k: int|
                0 <= k < old(self).particles().free_list().len()
                    && old(self).particles().free_list()[k] == i
                    && final(self).particles().free_list() == old(
                    self,
                ).particles().free_list().remove(k),
            final(self).clock() == old(self).clock(),
            final(self).samples() == old(self).samples(),
            final(self).rate() == old(self).rate(),
            final(self).born() == old(self).born(),
            final(self).peak_due() == old(self).peak_due(),
    {
        self.pool.restore(i, p)
    }

    /// PANIC: kills every particle (all slots vacant, free list ascending).
    pub fn kill_all(&mut self)
        requires
            old(self).wf(),
        ensures
            final(self).wf(),
            final(self).particles().live() == 0,
            final(self).particles().slots().len() == old(self).particles().slots().len(),
            final(self).particles().free_list() == crate::pool::ascending_indices(
                old(self).particles().slots().len(),
            ),
            final(self).clock() == old(self).clock(),
            final(self).samples() == old(self).samples(),
            final(self).rate() == old(self).rate(),
            final(self).born() == old(self).born(),
            final(self).peak_due() == old(self).peak_due(),
    {
        self.pool.kill_all()
    }

    /// The spawn phase of one sample. When a spawn is due the generation
    /// advances; when the pool admits one more particle (see `begin_spawn`)
    /// `make` builds it from the new generation index, it is stored and its
    /// birth counted. Returns the newborn's slot.
    pub fn spawn_phase<F: FnOnce(usize) -> P>(&mut self, spawn_due: bool, limit: usize, make: F) -> (born: Option<usize>)
        requires
            old(self).wf(),
            forall|n: usize| make.requires((n,)),
            spawn_admitted(*old(self), spawn_due, limit) ==> old(self).born() < usize::MAX,
        ensures
            spawn_phase_post(*old(self), *final(self), spawn_due, limit, born),
            spawn_due && old(self).particles().live() < limit && old(self).particles().live()
                < DEFAULT_POOL_CAPACITY ==> born is Some && final(self).particles().live() == old(
                self,
            ).particles().live() + 1,
            !(spawn_due && old(self).particles().live() < limit && old(self).particles().live()
                < DEFAULT_POOL_CAPACITY) ==> born is None && final(self).particles() == old(
                self,
            ).particles(),
            born is Some ==> make.ensures(
                (final(self).clock().generation(),),
                final(self).particles().slots()[born->0 as int]->0,
            ),
    {
        if !spawn_due {
            return None;
        }
        match self.begin_spawn(limit) {
            Some(n) => {
                let p = make(n);
                let idx = self.accept(p);
                Some(idx)
            },
            None => None,
        }
    }

    /// The particle pass of one sample: visits every live particle once, in
    /// slot order, threading the pass state `state` through the visits.
    /// `visit` takes the pass state and the particle and returns the new
    /// pass state with the particle if it lives on (it goes back into its
    /// slot) or with nothing if it died (its slot goes onto the free list).
    /// Returns the pass state after the last visit.
    pub fn particle_pass<S, G: Fn(S, P) -> (S, Option<P>)>(&mut self, state: S, visit: G) -> (r: S)
        requires
            old(self).wf(),
            forall|s: S, p: P| #[trigger] visit.requires((s, p)),
        ensures
            particle_pass_post(*old(self), *final(self)),
            visits_in_slot_order(
                visit,
                old(self).particles().slots(),
                final(self).particles().slots(),
                state,
                r,
            ),
    {
        let n = self.slot_count();
        let ghost a = *self;
        let ghost fa = a.particles().free_list();
        let ghost sa = a.particles().slots();
        let mut cur = state;
        let ghost mut trace: Seq<S> = seq![cur];
        let mut i: usize = 0;
        while i < n
            invariant
                self.wf(),
                forall|s: S, p: P| #[trigger] visit.requires((s, p)),
                i <= n,
                n == sa.len(),
                self.particles().slots().len() == n,
                forall|k: int| i <= k < n ==> self.particles().slots()[k] == sa[k],
                forall|k: int|
                    0 <= k < i && (#[trigger] self.particles().slots()[k]) is Some ==> sa[k] is Some,
                trace.len() == i + 1,
                trace[0] == state,
                trace[i as int] == cur,
                forall|k: int|
                    0 <= k < i ==> #[trigger] slot_visit(
                        visit,
                        trace,
                        k,
                        sa[k],
                        self.particles().slots()[k],
                    ),
                fa.len() <= self.particles().free_list().len(),
                self.particles().free_list().subrange(0, fa.len() as int) == fa,
                forall|p: int, q: int|
                    fa.len() <= p < q < self.particles().free_list().len() ==> (
                    #[trigger] self.particles().free_list()[p]) < (
                    #[trigger] self.particles().free_list()[q]),
                forall|p: int|
                    fa.len() <= p < self.particles().free_list().len() ==> (
                    #[trigger] self.particles().free_list()[p]) < i && sa[self.particles().free_list()[p] as int] is Some,
                self.clock() == a.clock(),
                self.samples() == a.samples(),
                self.rate() == a.rate(),
                self.born() == a.born(),
                self.peak_due() == a.peak_due(),
            decreases n - i,
        {
            let ghost before = *self;
            let ghost fbef = before.particles().free_list();
            let ghost sbef = before.particles().slots();
            let ghost tbef = trace;
            match self.take_particle(i) {
                None => {
                    proof {
                        trace = trace.push(cur);
                    }
                },
                Some(p) => {
                    let ghost mid = *self;
                    let (next, out) = visit(cur, p);
                    cur = next;
                    proof {
                        trace = trace.push(cur);
                    }
                    match out {
                        Some(q) => {
                            self.return_particle(i, q);
                            proof {
                                let fm = mid.particles().free_list();
                                let k = choose|k: int|
                                    0 <= k < fm.len() && fm[k] == i
                                        && self.particles().free_list() == fm.remove(k);
                                lemma_take_and_return_restores_pool(sbef, fbef, i, k);
                                assert(self.particles().free_list() == fbef);
                            }
                        },
                        None => {
                            proof {
                                let f = self.particles().free_list();
                                assert(f == fbef.push(i));
                                assert(f.subrange(0, fa.len() as int) =~= fbef.subrange(0, fa.len() as int));
                            }
                        },
                    }
                },
            }
            proof {
                let sb = self.particles().slots();
                assert(slot_visit(visit, trace, i as int, sa[i as int], sb[i as int]));
                assert forall|k: int| 0 <= k < i + 1 implies #[trigger] slot_visit(
                    visit,
                    trace,
                    k,
                    sa[k],
                    sb[k],
                ) by {
                    if k < i {
                        assert(slot_visit(visit, tbef, k, sa[k], sbef[k]));
                        assert(trace[k + 1] == tbef[k + 1]);
                    }
                }
            }
            i = i + 1;
        }
        proof {
            let sb = self.particles().slots();
            let full = vstd::set_lib::set_int_range(0, n as int);
            vstd::set_lib::lemma_int_range(0, n as int);
            vstd::set_lib::lemma_len_subset(occupied(sa), full);
            assert(occupied(sb).subset_of(occupied(sa)));
            vstd::set_lib::lemma_len_subset(occupied(sb), occupied(sa));
        }
        cur
    }

    /// Clears the pool and the spawn sequence (the history is kept):
    /// afterwards the state counts born particles and processed samples from
    /// zero and the spawn clock is due at once. The peak-follow schedule is
    /// a sample count on the same counter, so it restarts with it: the next
    /// peak update is due at sample 0, where a schedule left at its old
    /// value would hold peak updates back until the restarted counter
    /// caught up with it.
    pub fn clear_particles(&mut self)
        ensures
            final(self).wf(),
            final(self).particles().slots().len() == 0,
            final(self).particles().free_list().len() == 0,
            final(self).clock().next_due() == 0,
            final(self).clock().generation() == 0,
            final(self).samples() == 0,
            final(self).born() == 0,
            final(self).peak_due() == 0,
            final(self).rate() == old(self).rate(),
    {
        self.pool.clear();
        self.spawner.reset(0);
        self.sample_count = 0;
        self.spawn_count = 0;
        self.next_peak_update = 0;
    }
}

} // verus!
