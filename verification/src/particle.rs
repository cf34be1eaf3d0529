//! Life clock of one granular voice.
//!
//! A particle lives for a fixed number of samples; its envelope opens with a
//! linear attack over the first `attack` samples and decays exponentially
//! afterwards. This module counts those samples; the envelope gain itself is
//! computed by the voice.

use vstd::prelude::*;

verus! {

/// What one sample of a particle's life is.
#[derive(Clone, Copy, Debug, PartialEq, Eq)]
pub enum LifeStep {
    /// Lifetime used up: the particle produces nothing more.
    Dead,
    /// Attack sample `elapsed` of `total` (1-based): the envelope is at
    /// `elapsed / total` of the particle's initial gain.
    Attack { elapsed: usize, total: usize },
    /// After the attack: the envelope decays by its per-sample factor.
    Decay,
}

/// Sample counters of one particle.
#[derive(Clone, Copy, Debug)]
pub struct LifeClock {
    lifetime: usize,
    attack_samples: usize,
    attack_elapsed: usize,
}

/// One step of a clock with `lifetime` samples left, an attack of `attack`
/// samples of which `elapsed` have passed: the step and the counters after.
pub open spec fn life_step(lifetime: usize, attack: usize, elapsed: usize) -> (LifeStep, usize, usize) {
    if lifetime == 0 {
        (LifeStep::Dead, 0, elapsed)
    } else if elapsed < attack {
        (LifeStep::Attack { elapsed: (elapsed + 1) as usize, total: attack }, (lifetime - 1) as usize, (elapsed + 1) as usize)
    } else {
        (LifeStep::Decay, (lifetime - 1) as usize, elapsed)
    }
}

impl LifeClock {
    /// Samples of life left.
    pub closed spec fn remaining(&self) -> usize {
        self.lifetime
    }

    /// Length of the attack.
    pub closed spec fn attack(&self) -> usize {
        self.attack_samples
    }

    /// Attack samples already played.
    pub closed spec fn elapsed(&self) -> usize {
        self.attack_elapsed
    }

    /// The attack never outlasts the attack length.
    pub open spec fn wf(&self) -> bool {
        self.elapsed() <= self.attack()
    }

    /// A clock for a particle living `lifetime_samples` samples (at least
    /// one) whose attack lasts `attack_samples` (at most the lifetime).
    pub fn new(attack_samples: usize, lifetime_samples: usize) -> (r: Self)
        ensures
            r.wf(),
            r.remaining() == (if lifetime_samples == 0 { 1 } else { lifetime_samples }),
            r.attack() == (if attack_samples <= r.remaining() { attack_samples } else { r.remaining() }),
            r.elapsed() == 0,
    {
        let lifetime = if lifetime_samples == 0 { 1 } else { lifetime_samples };
        let attack = if attack_samples <= lifetime { attack_samples } else { lifetime };
        LifeClock { lifetime, attack_samples: attack, attack_elapsed: 0 }
    }

    /// Samples of life left.
    pub fn lifetime(&self) -> (r: usize)
        ensures
            r == self.remaining(),
    {
        self.lifetime
    }

    /// Advances one sample of life.
    pub fn tick(&mut self) -> (step: LifeStep)
        requires
            old(self).wf(),
        ensures
            final(self).wf(),
            (step, final(self).remaining(), final(self).elapsed()) == life_step(
                old(self).remaining(),
                old(self).attack(),
                old(self).elapsed(),
            ),
            final(self).attack() == old(self).attack(),
    {
        if self.lifetime == 0 {
            return LifeStep::Dead;
        }
        self.lifetime = self.lifetime - 1;
        if self.attack_elapsed < self.attack_samples {
            self.attack_elapsed = self.attack_elapsed + 1;
            LifeStep::Attack { elapsed: self.attack_elapsed, total: self.attack_samples }
        } else {
            LifeStep::Decay
        }
    }
}

/// The counters of a clock after `n` ticks.
pub open spec fn clock_after(lifetime: usize, attack: usize, elapsed: usize, n: nat) -> (usize, usize)
    decreases n,
{
    if n == 0 {
        (lifetime, elapsed)
    } else {
        let prev = clock_after(lifetime, attack, elapsed, (n - 1) as nat);
        let s = life_step(prev.0, attack, prev.1);
        (s.1, s.2)
    }
}

/// The step that the `n`-th tick (0-based) of a clock returns.
pub open spec fn step_at(lifetime: usize, attack: usize, elapsed: usize, n: nat) -> LifeStep {
    let c = clock_after(lifetime, attack, elapsed, n);
    life_step(c.0, attack, c.1).0
}

/// A new particle clock lives exactly its lifetime: the first
/// `lifetime` ticks are alive, the first `attack` of them are attack
/// samples `1..=attack`, and every later tick is `Dead`.
pub proof fn lemma_particle_lives_exactly_its_lifetime(lifetime: usize, attack: usize, n: nat)
    requires
        lifetime >= 1,
        attack <= lifetime,
    ensures
        n < lifetime ==> step_at(lifetime, attack, 0, n) != LifeStep::Dead,
        n < attack ==> step_at(lifetime, attack, 0, n) == (LifeStep::Attack {
            elapsed: (n + 1) as usize,
            total: attack,
        }),
        attack <= n < lifetime ==> step_at(lifetime, attack, 0, n) == LifeStep::Decay,
        n >= lifetime ==> step_at(lifetime, attack, 0, n) == LifeStep::Dead,
{
    lemma_clock_after(lifetime, attack, n);
}

/// Counters of a new clock after `n` ticks: life counts down to zero, the
/// attack counter counts up to the attack length.
proof fn lemma_clock_after(lifetime: usize, attack: usize, n: nat)
    requires
        lifetime >= 1,
        attack <= lifetime,
    ensures
        clock_after(lifetime, attack, 0, n) == (
            (if n < lifetime { (lifetime - n) as usize } else { 0usize }),
            (if n < attack { n as usize } else { attack }),
        ),
    decreases n,
{
    if n > 0 {
        lemma_clock_after(lifetime, attack, (n - 1) as nat);
    }
}

} // verus!
