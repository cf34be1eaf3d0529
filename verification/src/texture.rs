//! Schedule of the WSOLA texture layer.
//!
//! The texture keeps a small sliding window tapped from the freshest history
//! samples; on a fixed refresh schedule it re-stretches that window into a
//! frozen wavetable, and every refresh crossfades the old table into the new
//! one over `fade_samples`. This module holds the integer side of that: the
//! window geometry, the refresh clock, the crossfade countdown and the
//! refresh counter.

use vstd::prelude::*;
use crate::spawner::{poll_schedule, poll_step};

verus! {

/// Smallest sliding-window capacity, in samples.
pub const MIN_WINDOW: usize = 64;

/// Largest search offset of the WSOLA alignment, in samples.
pub const MAX_OFFSET: usize = 8;

/// The window capacity actually used for a requested capacity.
pub open spec fn window_for(requested: usize) -> usize {
    if requested < MIN_WINDOW { MIN_WINDOW } else { requested }
}

/// WSOLA hop size for a window of `cap` samples.
pub open spec fn hop_for(cap: usize) -> usize {
    if cap / 4 < 1 { 1 } else { cap / 4 }
}

/// WSOLA reference range for a window of `cap` samples.
pub open spec fn ref_range_for(cap: usize) -> usize {
    let r = if cap / 8 < 1 { 1 } else { cap / 8 };
    if r < cap / 4 { r } else { cap / 4 }
}

/// At least one.
pub open spec fn at_least_one(x: usize) -> usize {
    if x == 0 { 1 } else { x }
}

/// Window geometry: the window holds at least 64 samples and exactly the
/// requested count from 64 on; for such a window the hop is a quarter of
/// it and the alignment search range an eighth, at most half a hop.
pub proof fn lemma_window_geometry(requested: usize)
    ensures
        window_for(requested) >= 64,
        requested >= 64 ==> window_for(requested) == requested,
        requested < 64 ==> window_for(requested) == 64,
        hop_for(window_for(requested)) == window_for(requested) / 4,
        ref_range_for(window_for(requested)) == window_for(requested) / 8,
        2 * ref_range_for(window_for(requested)) <= hop_for(window_for(requested)),
{
}

/// The integer state of the texture layer.
pub struct TextureClock {
    window_capacity: usize,
    refresh_interval: usize,
    next_refresh: usize,
    hop: usize,
    ref_range: usize,
    fade_remaining: usize,
    fade_total: usize,
    refreshes: usize,
}

impl TextureClock {
    /// Capacity of the sliding window.
    pub closed spec fn capacity(&self) -> usize {
        self.window_capacity
    }

    /// Samples between refreshes.
    pub closed spec fn interval(&self) -> usize {
        self.refresh_interval
    }

    /// Sample at or after which the next refresh runs.
    pub closed spec fn refresh_due(&self) -> usize {
        self.next_refresh
    }

    /// WSOLA hop size.
    pub closed spec fn hop_size(&self) -> usize {
        self.hop
    }

    /// WSOLA reference range.
    pub closed spec fn reference_range(&self) -> usize {
        self.ref_range
    }

    /// Samples left in the running crossfade (0 = none running).
    pub closed spec fn fade_left(&self) -> usize {
        self.fade_remaining
    }

    /// Length of a crossfade.
    pub closed spec fn fade_length(&self) -> usize {
        self.fade_total
    }

    /// Refreshes performed so far.
    pub closed spec fn refresh_count(&self) -> usize {
        self.refreshes
    }

    /// Window geometry matches the window capacity; intervals are positive.
    pub open spec fn wf(&self) -> bool {
        &&& self.capacity() >= MIN_WINDOW
        &&& self.hop_size() == hop_for(self.capacity())
        &&& self.reference_range() == ref_range_for(self.capacity())
        &&& self.interval() >= 1
        &&& self.fade_length() >= 1
    }

    /// A texture clock for a window of `window_capacity` samples (at least
    /// 64) and crossfades of `fade_samples` (at least one): refresh due
    /// immediately, every half window.
    pub fn new(window_capacity: usize, fade_samples: usize) -> (r: Self)
        ensures
            r.wf(),
            r.capacity() == window_for(window_capacity),
            r.interval() == at_least_one(window_for(window_capacity) / 2),
            r.refresh_due() == 0,
            r.fade_left() == 0,
            r.fade_length() == at_least_one(fade_samples),
            r.refresh_count() == 0,
    {
        let cap = if window_capacity < MIN_WINDOW { MIN_WINDOW } else { window_capacity };
        let half = cap / 2;
        let quarter = cap / 4;
        let eighth = cap / 8;
        let hop = if quarter < 1 { 1 } else { quarter };
        let r8 = if eighth < 1 { 1 } else { eighth };
        TextureClock {
            window_capacity: cap,
            refresh_interval: if half < 1 { 1 } else { half },
            next_refresh: 0,
            hop,
            ref_range: if r8 < quarter { r8 } else { quarter },
            fade_remaining: 0,
            fade_total: if fade_samples == 0 { 1 } else { fade_samples },
            refreshes: 0,
        }
    }

    /// Current window capacity in samples.
    pub fn window_capacity(&self) -> (r: usize)
        ensures
            r == self.capacity(),
    {
        self.window_capacity
    }

    /// Number of WSOLA refreshes performed so far.
    pub fn refreshes(&self) -> (r: usize)
        ensures
            r == self.refresh_count(),
    {
        self.refreshes
    }

    /// WSOLA hop size.
    pub fn hop(&self) -> (r: usize)
        ensures
            r == self.hop_size(),
    {
        self.hop
    }

    /// WSOLA reference range.
    pub fn ref_range(&self) -> (r: usize)
        ensures
            r == self.reference_range(),
    {
        self.ref_range
    }

    /// Samples left in the running crossfade, and the crossfade length.
    pub fn fade_state(&self) -> (r: (usize, usize))
        ensures
            r == (self.fade_left(), self.fade_length()),
    {
        (self.fade_remaining, self.fade_total)
    }

    /// Drops the running crossfade (PANIC).
    pub fn clear(&mut self)
        requires
            old(self).wf(),
        ensures
            final(self).wf(),
            final(self).fade_left() == 0,
            final(self).capacity() == old(self).capacity(),
            final(self).interval() == old(self).interval(),
            final(self).refresh_due() == old(self).refresh_due(),
            final(self).fade_length() == old(self).fade_length(),
            final(self).refresh_count() == old(self).refresh_count(),
    {
        self.fade_remaining = 0;
    }

    /// Restarts the refresh schedule: the next refresh is due at once.
    pub fn reschedule(&mut self)
        requires
            old(self).wf(),
        ensures
            final(self).wf(),
            final(self).refresh_due() == 0,
            final(self).capacity() == old(self).capacity(),
            final(self).interval() == old(self).interval(),
            final(self).fade_left() == old(self).fade_left(),
            final(self).fade_length() == old(self).fade_length(),
            final(self).refresh_count() == old(self).refresh_count(),
    {
        self.next_refresh = 0;
    }

    /// Resizes the sliding window (at least 64 samples). Returns false and
    /// changes nothing when the capacity stays the same; otherwise the
    /// window geometry follows the new capacity and a refresh is due at once
    /// (the caller drops the texture content).
    pub fn resize(&mut self, window_capacity: usize) -> (rebuilt: bool)
        requires
            old(self).wf(),
        ensures
            final(self).wf(),
            rebuilt == (window_for(window_capacity) != old(self).capacity()),
            !rebuilt ==> *final(self) == *old(self),
            rebuilt ==> {
                &&& final(self).capacity() == window_for(window_capacity)
                &&& final(self).refresh_due() == 0
                &&& final(self).interval() == old(self).interval()
                &&& final(self).fade_left() == old(self).fade_left()
                &&& final(self).fade_length() == old(self).fade_length()
                &&& final(self).refresh_count() == old(self).refresh_count()
            },
    {
        let cap = if window_capacity < MIN_WINDOW { MIN_WINDOW } else { window_capacity };
        if cap == self.window_capacity {
            return false;
        }
        let quarter = cap / 4;
        let eighth = cap / 8;
        let r8 = if eighth < 1 { 1 } else { eighth };
        self.window_capacity = cap;
        self.next_refresh = 0;
        self.hop = if quarter < 1 { 1 } else { quarter };
        self.ref_range = if r8 < quarter { r8 } else { quarter };
        true
    }

    /// Per-sample schedule step: adopts the refresh interval and crossfade
    /// length (each at least one) and reports whether a refresh runs at
    /// `sample_count`; a refresh is counted and the next one scheduled.
    pub fn tick(&mut self, refresh_interval: usize, fade_samples: usize, sample_count: usize) -> (due: bool)
        requires
            old(self).wf(),
            old(self).refresh_due() <= sample_count ==> sample_count + at_least_one(refresh_interval)
                <= usize::MAX,
            old(self).refresh_due() <= sample_count ==> old(self).refresh_count() < usize::MAX,
        ensures
            final(self).wf(),
            final(self).interval() == at_least_one(refresh_interval),
            final(self).fade_length() == at_least_one(fade_samples),
            (due, final(self).refresh_due() as int) == poll_step(
                old(self).refresh_due() as int,
                sample_count as int,
                refresh_interval,
            ),
            final(self).refresh_count() == old(self).refresh_count() + (if due { 1int } else { 0 }),
            final(self).capacity() == old(self).capacity(),
            final(self).fade_left() == old(self).fade_left(),
    {
        self.refresh_interval = if refresh_interval == 0 { 1 } else { refresh_interval };
        self.fade_total = if fade_samples == 0 { 1 } else { fade_samples };
        let due = poll_schedule(&mut self.next_refresh, sample_count, self.refresh_interval);
        if due {
            self.refreshes = self.refreshes + 1;
        }
        due
    }

    /// Length of the previous stretched table's head handed to the next
    /// stretch as overlap context: up to its middle plus one hop, and
    /// nothing while the table is shorter than two hops.
    pub fn prev_tail_len(&self, stretched_len: usize) -> (r: usize)
        requires
            self.wf(),
        ensures
            stretched_len < 2 * self.hop_size() ==> r == 0,
            stretched_len >= 2 * self.hop_size() ==> r == (if stretched_len / 2 + self.hop_size()
                < stretched_len {
                stretched_len / 2 + self.hop_size()
            } else {
                stretched_len as int
            }),
            r <= stretched_len,
    {
        if stretched_len / 2 >= self.hop {
            let end = stretched_len / 2 + self.hop;
            if end < stretched_len { end } else { stretched_len }
        } else {
            0
        }
    }

    /// A refresh replaced a non-empty table: the crossfade from the old
    /// table to the new one starts and runs for the crossfade length.
    pub fn start_crossfade(&mut self)
        requires
            old(self).wf(),
        ensures
            final(self).wf(),
            final(self).fade_left() == old(self).fade_length(),
            final(self).capacity() == old(self).capacity(),
            final(self).interval() == old(self).interval(),
            final(self).refresh_due() == old(self).refresh_due(),
            final(self).fade_length() == old(self).fade_length(),
            final(self).refresh_count() == old(self).refresh_count(),
    {
        self.fade_remaining = self.fade_total;
    }

    /// Advances the crossfade by one sample; returns true on the sample it
    /// ends (the old table is dropped then).
    pub fn advance_fade(&mut self) -> (ended: bool)
        requires
            old(self).wf(),
        ensures
            final(self).wf(),
            old(self).fade_left() > 0 ==> final(self).fade_left() == old(self).fade_left() - 1,
            old(self).fade_left() == 0 ==> final(self).fade_left() == 0,
            ended == (old(self).fade_left() == 1),
            final(self).capacity() == old(self).capacity(),
            final(self).interval() == old(self).interval(),
            final(self).refresh_due() == old(self).refresh_due(),
            final(self).fade_length() == old(self).fade_length(),
            final(self).refresh_count() == old(self).refresh_count(),
    {
        if self.fade_remaining > 0 {
            self.fade_remaining = self.fade_remaining - 1;
            self.fade_remaining == 0
        } else {
            false
        }
    }
}

} // verus!
