//! The particle pool: a fixed-capacity slot map with a free list.
//!
//! Particles live in slots; a dead particle's slot goes onto the free list
//! and is reused (last freed, first reused) by the next spawn, so spawning
//! and dying never allocate once the pool has grown. The iteration order of
//! the slots is the serial processing order of the particles.

use vstd::prelude::*;

verus! {

/// Fixed pool capacity of the slot map: at most this many particles are
/// ever alive at once.
pub const DEFAULT_POOL_CAPACITY: usize = 192;

/// Indices of the slots that hold a particle.
pub open spec fn occupied<P>(s: Seq<Option<P>>) -> Set<int> {
    Set::new(|i: int| 0 <= i < s.len() && s[i] is Some)
}

/// Indices of the slots that hold no particle.
pub open spec fn vacant<P>(s: Seq<Option<P>>) -> Set<int> {
    Set::new(|i: int| 0 <= i < s.len() && s[i] is None)
}

/// The free list names exactly the vacant slots, each once.
pub open spec fn free_list_matches<P>(s: Seq<Option<P>>, free: Seq<usize>) -> bool {
    &&& free.no_duplicates()
    &&& forall|k: int| 0 <= k < free.len() ==> (#[trigger] free[k]) < s.len() && s[free[k] as int] is None
    &&& forall|i: int| 0 <= i < s.len() && (#[trigger] s[i]) is None ==> free.contains(i as usize)
}

/// The sequence `0, 1, .., n - 1` of slot indices.
pub open spec fn ascending_indices(n: nat) -> Seq<usize> {
    Seq::new(n, |i: int| i as usize)
}

/// When the free list names exactly the vacant slots, the number of live
/// particles is the number of slots minus the length of the free list.
proof fn lemma_live_count<P>(s: Seq<Option<P>>, free: Seq<usize>)
    requires
        free_list_matches(s, free),
        s.len() <= DEFAULT_POOL_CAPACITY,
    ensures
        occupied(s).finite(),
        occupied(s).len() == s.len() - free.len(),
{
    let f = |x: usize| x as int;
    assert(vstd::relations::injective(f));
    free.lemma_no_duplicates_injective(f);
    let fi = free.map_values(f);
    fi.unique_seq_to_set();
    assert forall|i: int| #[trigger] vacant(s).contains(i) implies fi.to_set().contains(i) by {
        assert(s[i] is None);
        let k = choose|k: int| 0 <= k < free.len() && free[k] == i as usize;
        assert(fi[k] == free[k] as int);
        assert(fi[k] == i);
        assert(fi.contains(i));
    }
    assert forall|i: int| #[trigger] fi.to_set().contains(i) implies vacant(s).contains(i) by {
        let k = choose|k: int| 0 <= k < fi.len() && fi[k] == i;
        assert(free[k] < s.len());
    }
    assert(fi.to_set() =~= vacant(s));
    let full = vstd::set_lib::set_int_range(0, s.len() as int);
    vstd::set_lib::lemma_int_range(0, s.len() as int);
    vstd::set_lib::lemma_len_subset(occupied(s), full);
    vstd::set_lib::lemma_len_subset(vacant(s), full);
    assert(occupied(s) + vacant(s) =~= full);
    assert(occupied(s).disjoint(vacant(s)));
    vstd::set_lib::lemma_set_disjoint_lens(occupied(s), vacant(s));
}

/// Taking a live particle out of its slot and putting it back (what the
/// processing loop does with every particle that survives the sample)
/// leaves the slots and the free list as they were, so the slot that the
/// next spawn reuses does not depend on how many particles were processed.
pub proof fn lemma_take_and_return_restores_pool<P>(
    slots: Seq<Option<P>>,
    free: Seq<usize>,
    i: usize,
    k: int,
)
    requires
        free_list_matches(slots, free),
        i < slots.len(),
        slots[i as int] is Some,
        0 <= k < free.push(i).len(),
        free.push(i)[k] == i,
    ensures
        free.push(i).remove(k) == free,
        slots.update(i as int, None).update(i as int, slots[i as int]) == slots,
{
    assert(!free.contains(i)) by {
        if free.contains(i) {
            let q = choose|q: int| 0 <= q < free.len() && free[q] == i;
            assert(slots[free[q] as int] is None);
        }
    }
    if k < free.len() {
        assert(free.push(i)[k] == free[k]);
        assert(free.contains(i));
    }
    assert(k == free.len());
    assert(free.push(i).remove(k) =~= free);
    assert(slots.update(i as int, None).update(i as int, slots[i as int]) =~= slots);
}

/// Slot map of particles plus a free list of reusable slots.
pub struct ParticlePool<P> {
    slots: Vec<Option<P>>,
    free: Vec<usize>,
}

impl<P> ParticlePool<P> {
    /// The slots, in processing order.
    pub closed spec fn slots(&self) -> Seq<Option<P>> {
        self.slots@
    }

    /// The free list; its last entry is the slot reused next.
    pub closed spec fn free_list(&self) -> Seq<usize> {
        self.free@
    }

    /// Pool invariant: the free list names exactly the vacant slots, and the
    /// pool never grows beyond its fixed capacity.
    pub open spec fn wf(&self) -> bool {
        &&& self.slots().len() <= DEFAULT_POOL_CAPACITY
        &&& free_list_matches(self.slots(), self.free_list())
    }

    /// Number of live particles.
    pub open spec fn live(&self) -> nat {
        occupied(self.slots()).len()
    }

    /// An empty pool.
    pub fn new() -> (r: Self)
        ensures
            r.wf(),
            r.slots() == Seq::<Option<P>>::empty(),
            r.free_list() == Seq::<usize>::empty(),
    {
        ParticlePool {
            slots: Vec::with_capacity(DEFAULT_POOL_CAPACITY),
            free: Vec::with_capacity(DEFAULT_POOL_CAPACITY),
        }
    }

    /// Number of live particles right now.
    pub fn live_count(&self) -> (r: usize)
        requires
            self.wf(),
        ensures
            r == self.live(),
            r == self.slots().len() - self.free_list().len(),
            r <= DEFAULT_POOL_CAPACITY,
    {
        proof {
            lemma_live_count(self.slots@, self.free@);
            vstd::set_lib::lemma_int_range(0, self.slots@.len() as int);
            vstd::set_lib::lemma_len_subset(
                occupied(self.slots@),
                vstd::set_lib::set_int_range(0, self.slots@.len() as int),
            );
        }
        self.slots.len() - self.free.len()
    }

    /// Number of slots (live or vacant).
    pub fn slot_count(&self) -> (r: usize)
        ensures
            r == self.slots().len(),
    {
        self.slots.len()
    }

    /// The particle in slot `i`, if that slot is live.
    pub fn get(&self, i: usize) -> (r: Option<&P>)
        ensures
            r is Some <==> (i < self.slots().len() && self.slots()[i as int] is Some),
            r is Some ==> *r->0 == self.slots()[i as int]->0,
    {
        if i < self.slots.len() {
            match &self.slots[i] {
                Some(p) => Some(p),
                None => None,
            }
        } else {
            None
        }
    }

    /// Whether one more particle may be born: fewer than `limit` live
    /// particles and fewer than the pool capacity.
    pub fn admits(&self, limit: usize) -> (r: bool)
        requires
            self.wf(),
        ensures
            r == (self.live() < limit && self.live() < DEFAULT_POOL_CAPACITY),
    {
        let lives = self.live_count();
        lives < limit && lives < DEFAULT_POOL_CAPACITY
    }

    /// Stores a newborn particle, reusing the most recently freed slot if
    /// there is one and appending a slot otherwise; returns its slot.
    pub fn insert(&mut self, p: P) -> (idx: usize)
        requires
            old(self).wf(),
            old(self).live() < DEFAULT_POOL_CAPACITY,
        ensures
            final(self).wf(),
            final(self).live() == old(self).live() + 1,
            old(self).free_list().len() > 0 ==> {
                &&& idx == old(self).free_list().last()
                &&& final(self).free_list() == old(self).free_list().drop_last()
                &&& final(self).slots() == old(self).slots().update(idx as int, Some(p))
            },
            old(self).free_list().len() == 0 ==> {
                &&& idx == old(self).slots().len()
                &&& final(self).free_list() == old(self).free_list()
                &&& final(self).slots() == old(self).slots().push(Some(p))
            },
    {
        proof {
            lemma_live_count(self.slots@, self.free@);
        }
        let ghost old_slots = self.slots@;
        let ghost old_free = self.free@;
        let idx = match self.free.pop() {
            Some(i) => {
                self.slots[i] = Some(p);
                i
            },
            None => {
                self.slots.push(Some(p));
                self.slots.len() - 1
            },
        };
        proof {
            let s = self.slots@;
            let f = self.free@;
            assert forall|k: int| 0 <= k < f.len() implies (#[trigger] f[k]) < s.len() && s[f[k] as int] is None by {
                assert(old_free[k] == f[k]);
                if old_free.len() > 0 {
                    assert(old_free[k] != old_free[old_free.len() - 1]);
                }
            }
            assert forall|i: int| 0 <= i < s.len() && (#[trigger] s[i]) is None implies f.contains(i as usize) by {
                assert(i != idx);
                assert(old_slots[i] is None);
                let k = choose|k: int| 0 <= k < old_free.len() && old_free[k] == i as usize;
                assert(k < f.len());
                assert(f[k] == i as usize);
            }
            assert(f.no_duplicates());
            lemma_live_count(s, f);
        }
        idx
    }

    /// Kills the particle in slot `i` (if any): the slot becomes vacant and
    /// goes onto the free list. Returns the particle.
    pub fn remove(&mut self, i: usize) -> (r: Option<P>)
        requires
            old(self).wf(),
        ensures
            final(self).wf(),
            i < old(self).slots().len() && old(self).slots()[i as int] is Some ==> {
                &&& r == old(self).slots()[i as int]
                &&& final(self).slots() == old(self).slots().update(i as int, None)
                &&& final(self).free_list() == old(self).free_list().push(i)
                &&& final(self).live() + 1 == old(self).live()
            },
            !(i < old(self).slots().len() && old(self).slots()[i as int] is Some) ==> {
                &&& r is None
                &&& *final(self) == *old(self)
            },
    {
        if i >= self.slots.len() || self.slots[i].is_none() {
            return None;
        }
        proof {
            lemma_live_count(self.slots@, self.free@);
        }
        let ghost old_slots = self.slots@;
        let ghost old_free = self.free@;
        let out = self.slots[i].take();
        self.free.push(i);
        proof {
            let s = self.slots@;
            let f = self.free@;
            assert(s == old_slots.update(i as int, None));
            assert(!old_free.contains(i)) by {
                if old_free.contains(i) {
                    let k = choose|k: int| 0 <= k < old_free.len() && old_free[k] == i;
                    assert(old_slots[old_free[k] as int] is None);
                }
            }
            assert forall|a: int, b: int| 0 <= a < b < f.len() implies f[a] != f[b] by {
                if b == f.len() - 1 {
                    assert(f[b] == i);
                    assert(f[a] == old_free[a]);
                }
            }
            assert forall|k: int| 0 <= k < f.len() implies (#[trigger] f[k]) < s.len() && s[f[k] as int] is None by {
                if k < old_free.len() {
                    assert(f[k] == old_free[k]);
                }
            }
            assert forall|j: int| 0 <= j < s.len() && (#[trigger] s[j]) is None implies f.contains(j as usize) by {
                if j == i as int {
                    assert(f[f.len() - 1] == i);
                } else {
                    assert(old_slots[j] is None);
                    let k = choose|k: int| 0 <= k < old_free.len() && old_free[k] == j as usize;
                    assert(f[k] == j as usize);
                }
            }
            lemma_live_count(s, f);
        }
        out
    }

    /// Puts a particle back into the vacant slot `i` (the slot it was taken
    /// from by `remove`), taking `i` off the free list again.
    pub fn restore(&mut self, i: usize, p: P)
        requires
            old(self).wf(),
            i < old(self).slots().len(),
            old(self).slots()[i as int] is None,
        ensures
            final(self).wf(),
            final(self).slots() == old(self).slots().update(i as int, Some(p)),
            exists|k: int|
                0 <= k < old(self).free_list().len() && old(self).free_list()[k] == i
                    && final(self).free_list() == old(self).free_list().remove(k),
            final(self).live() == old(self).live() + 1,
    {
        proof {
            lemma_live_count(self.slots@, self.free@);
        }
        let ghost old_slots = self.slots@;
        let ghost old_free = self.free@;
        assert(old_free.contains(i));
        // search from the back: right after `remove(i)`, `i` is the last entry
        let mut k = self.free.len();
        while k > 0 && self.free[k - 1] != i
            invariant
                k <= self.free.len(),
                self.free@ == old_free,
                old_free.contains(i),
                forall|j: int| k <= j < old_free.len() ==> old_free[j] != i,
            decreases k,
        {
            k = k - 1;
        }
        assert(k > 0) by {
            if k == 0 {
                let q = choose|q: int| 0 <= q < old_free.len() && old_free[q] == i;
                assert(old_free[q] != i);
            }
        }
        let pos = k - 1;
        assert(old_free[pos as int] == i);
        self.free.remove(pos);
        self.slots[i] = Some(p);
        proof {
            let s = self.slots@;
            let f = self.free@;
            old_free.remove_ensures(pos as int);
            assert(f == old_free.remove(pos as int));
            assert forall|a: int, b: int| 0 <= a < b < f.len() implies f[a] != f[b] by {
                let oa = if a < pos { a } else { a + 1 };
                let ob = if b < pos { b } else { b + 1 };
                assert(f[a] == old_free[oa]);
                assert(f[b] == old_free[ob]);
            }
            assert forall|q: int| 0 <= q < f.len() implies (#[trigger] f[q]) < s.len() && s[f[q] as int] is None by {
                let oq = if q < pos { q } else { q + 1 };
                assert(f[q] == old_free[oq]);
                assert(oq != pos);
            }
            assert forall|j: int| 0 <= j < s.len() && (#[trigger] s[j]) is None implies f.contains(j as usize) by {
                assert(j != i as int);
                assert(old_slots[j] is None);
                let q = choose|q: int| 0 <= q < old_free.len() && old_free[q] == j as usize;
                assert(q != pos);
                if q < pos {
                    assert(f[q] == j as usize);
                } else {
                    assert(f[q - 1] == j as usize);
                }
            }
            lemma_live_count(s, f);
        }
    }

    /// Kills every particle but keeps the slots: all slots become vacant and
    /// the free list lists them in ascending order.
    pub fn kill_all(&mut self)
        requires
            old(self).wf(),
        ensures
            final(self).wf(),
            final(self).slots().len() == old(self).slots().len(),
            forall|i: int| 0 <= i < final(self).slots().len() ==> (#[trigger] final(self).slots()[i]) is None,
            final(self).free_list() == ascending_indices(old(self).slots().len()),
            final(self).live() == 0,
    {
        let n = self.slots.len();
        let ghost old_len = self.slots@.len();
        let mut i: usize = 0;
        let mut free: Vec<usize> = Vec::with_capacity(n);
        while i < n
            invariant
                n == self.slots@.len(),
                n == old_len,
                n <= DEFAULT_POOL_CAPACITY,
                i <= n,
                forall|j: int| 0 <= j < i ==> (#[trigger] self.slots@[j]) is None,
                free@ == ascending_indices(i as nat),
            decreases n - i,
        {
            self.slots[i] = None;
            free.push(i);
            assert(free@ =~= ascending_indices((i + 1) as nat));
            i = i + 1;
        }
        self.free = free;
        proof {
            let s = self.slots@;
            let f = self.free@;
            assert forall|j: int| 0 <= j < s.len() && (#[trigger] s[j]) is None implies f.contains(j as usize) by {
                assert(f[j] == j as usize);
            }
            lemma_live_count(s, f);
        }
    }

    /// Drops every particle and every slot.
    pub fn clear(&mut self)
        ensures
            final(self).wf(),
            final(self).slots() == Seq::<Option<P>>::empty(),
            final(self).free_list() == Seq::<usize>::empty(),
    {
        self.slots.clear();
        self.free.clear();
    }
}

} // verus!
