//! Behaviour of the integer core on concrete values.

use particula::engine::{stats_snapshot_due, FALLBACK_SAMPLE_RATE};
use particula::history::{MAX_HISTORY_CAPACITY, MIN_HISTORY_CAPACITY};
use particula::ui::{
    clamp_page, cond_matches, discrete_options, dot_slot, log_param, shuffled_slots, visible_rows,
    DOTS_PER_RING, RINGS,
};
use particula::{
    feedback_slot, history_target_capacity, label, poll_schedule, resize_tail, CloudState,
    LifeClock, LifeStep, PanelNav, ParticlePool, SpawnEvent, Spawner, SplitMix64, TextureClock,
    DEFAULT_POOL_CAPACITY,
};

#[test]
fn splitmix_matches_reference_vectors() {
    let mut r = SplitMix64::new(0);
    assert_eq!(r.next_u64(), 0xE220_A839_7B1D_CDAF);
    assert_eq!(r.next_u64(), 0x6E78_9E6A_A1B9_65F4);
    assert_eq!(r.next_u64(), 0x06C4_5D18_8009_454F);
}

#[test]
fn range_usize_exact_and_bounds_swapped() {
    let mut r = SplitMix64::new(0);
    assert_eq!(r.range_usize(10, 20), 11);
    let mut r2 = SplitMix64::new(0);
    assert_eq!(r2.range_usize(20, 10), 11);
    // the full range is accepted: the draw is the raw 64-bit value
    let mut full = SplitMix64::new(0);
    assert_eq!(full.range_usize(0, usize::MAX) as u64, 0xE220_A839_7B1D_CDAF);
    let mut full2 = SplitMix64::new(0);
    assert_eq!(full2.range_usize(usize::MAX, 0) as u64, 0xE220_A839_7B1D_CDAF);
    let mut r3 = SplitMix64::new(9);
    for _ in 0..1000 {
        assert_eq!(r3.range_usize(5, 5), 5);
    }
}

#[test]
fn same_seed_same_stream_law() {
    let mut a = SplitMix64::new(0xDEAD_BEEF);
    let mut b = SplitMix64::new(0xDEAD_BEEF);
    for _ in 0..256 {
        assert_eq!(a.next_u64(), b.next_u64());
    }
    let mut c = SplitMix64::new(0xDEAD_BEF0);
    let mut d = SplitMix64::new(0xDEAD_BEEF);
    assert_ne!(c.next_u64(), d.next_u64());
}

#[test]
fn spawner_drops_missed_spawns_instead_of_queueing() {
    let mut s = Spawner::new();
    assert!(s.poll(1000, 100));
    assert!(!s.poll(1050, 100));
    assert!(!s.poll(1099, 100));
    assert!(s.poll(1100, 100));
    // a long gap fires once, then the grid restarts from now
    assert!(s.poll(5000, 100));
    assert!(!s.poll(5001, 100));
    assert!(s.poll(5100, 100));
}

#[test]
fn spawner_zero_interval_means_every_sample() {
    let mut s = Spawner::new();
    for n in 0..10usize {
        assert!(s.poll(n, 0));
    }
}

#[test]
fn spawner_generation_and_reset() {
    let mut s = Spawner::default();
    assert_eq!(s.sequence_index(), 0);
    s.bump_sequence();
    s.bump_sequence();
    assert_eq!(s.sequence_index(), 2);
    s.reset(500);
    assert_eq!(s.sequence_index(), 0);
    assert!(!s.poll(499, 10));
    assert!(s.poll(500, 10));
}

#[test]
fn poll_schedule_moves_due_time() {
    let mut due = 10usize;
    assert!(!poll_schedule(&mut due, 9, 4));
    assert_eq!(due, 10);
    assert!(poll_schedule(&mut due, 10, 4));
    assert_eq!(due, 14);
}

#[test]
fn pool_reuses_last_freed_slot() {
    let mut p: ParticlePool<u32> = ParticlePool::new();
    assert_eq!(p.insert(10), 0);
    assert_eq!(p.insert(11), 1);
    assert_eq!(p.insert(12), 2);
    assert_eq!(p.live_count(), 3);
    assert_eq!(p.remove(1), Some(11));
    assert_eq!(p.remove(1), None);
    assert_eq!(p.remove(7), None);
    assert_eq!(p.live_count(), 2);
    assert_eq!(p.remove(0), Some(10));
    // last freed (0) is reused first, then 1
    assert_eq!(p.insert(20), 0);
    assert_eq!(p.insert(21), 1);
    assert_eq!(p.insert(22), 3);
    assert_eq!(p.slot_count(), 4);
    assert_eq!(p.get(3), Some(&22));
    assert_eq!(p.get(9), None);
}

#[test]
fn pool_take_and_return_restores_order_law() {
    let mut p: ParticlePool<u32> = ParticlePool::new();
    for v in 0..5u32 {
        p.insert(v);
    }
    p.remove(3);
    p.remove(1);
    // free list is [3, 1]; process slot 2: take it out, put it back
    let x = p.remove(2).unwrap();
    p.restore(2, x);
    // the reuse order is unchanged: 1 first, then 3
    assert_eq!(p.insert(100), 1);
    assert_eq!(p.insert(101), 3);
    assert_eq!(p.get(2), Some(&2));
}

#[test]
fn pool_kill_all_and_clear() {
    let mut p: ParticlePool<u8> = ParticlePool::new();
    for v in 0..4u8 {
        p.insert(v);
    }
    p.kill_all();
    assert_eq!(p.live_count(), 0);
    assert_eq!(p.slot_count(), 4);
    // ascending free list: the highest slot is reused first
    assert_eq!(p.insert(9), 3);
    p.clear();
    assert_eq!(p.slot_count(), 0);
    assert_eq!(p.insert(1), 0);
}

#[test]
fn pool_admission_respects_limit_and_capacity() {
    let mut p: ParticlePool<usize> = ParticlePool::new();
    assert!(p.admits(1));
    assert!(!p.admits(0));
    for v in 0..DEFAULT_POOL_CAPACITY {
        assert!(p.admits(1000));
        p.insert(v);
    }
    assert_eq!(p.live_count(), DEFAULT_POOL_CAPACITY);
    assert!(!p.admits(1000));
}

#[test]
fn cloud_state_counts_spawns_and_samples() {
    let mut c: CloudState<u32> = CloudState::new(44_100);
    assert_eq!(c.sample_rate(), 44_100);
    assert!(c.update_sample_rate(false, 96_000));
    assert_eq!(c.sample_rate(), FALLBACK_SAMPLE_RATE);
    assert!(!c.update_sample_rate(true, 0));
    assert!(c.update_sample_rate(true, 96_000));
    assert_eq!(c.sample_rate(), 96_000);

    c.begin_sample();
    assert_eq!(c.sample_count(), 1);
    assert!(c.poll_free_run(10));
    assert!(!c.poll_free_run(10));

    // limit 1: first spawn admitted, second refused but generation moves on
    assert_eq!(c.begin_spawn(1), Some(1));
    let idx = c.accept(7);
    assert_eq!(idx, 0);
    assert_eq!(c.spawned(), 1);
    assert_eq!(c.live_count(), 1);
    assert_eq!(c.begin_spawn(1), None);
    assert_eq!(c.begin_spawn(2), Some(3));
    assert_eq!(c.particle(0), Some(&7));

    // processing loop: take a particle, it dies (not returned)
    assert_eq!(c.take_particle(0), Some(7));
    assert_eq!(c.live_count(), 0);
    assert_eq!(c.accept(8), 0);
    assert_eq!(c.take_particle(0), Some(8));
    c.return_particle(0, 8);
    assert_eq!(c.live_count(), 1);
    assert_eq!(c.slot_count(), 1);

    c.kill_all();
    assert_eq!(c.live_count(), 0);
    c.clear_particles();
    assert_eq!(c.spawned(), 0);
    assert_eq!(c.sample_count(), 0);
    assert_eq!(c.slot_count(), 0);
}

#[test]
fn cloud_state_peak_update_schedule() {
    let mut c: CloudState<u8> = CloudState::new(48_000);
    assert!(c.peak_update_due(30));
    c.begin_sample();
    assert!(!c.peak_update_due(30));
    for _ in 0..29 {
        c.begin_sample();
    }
    assert!(c.peak_update_due(30));
}

#[test]
fn stats_refresh_every_1024_samples() {
    assert!(stats_snapshot_due(0));
    assert!(stats_snapshot_due(1024));
    assert!(stats_snapshot_due(4096));
    assert!(!stats_snapshot_due(1000));
    assert!(!stats_snapshot_due(1025));
}

#[test]
fn feedback_slot_exact_values() {
    assert_eq!(feedback_slot(0, 0, 3), None);
    // write position 5 in 16 slots: freshest is physical 4
    assert_eq!(feedback_slot(16, 5, 0), Some(4));
    assert_eq!(feedback_slot(16, 5, 2), Some(2));
    assert_eq!(feedback_slot(16, 5, 15), Some(5));
    assert_eq!(feedback_slot(16, 5, 1000), Some(5));
    assert_eq!(feedback_slot(1, 0, 7), Some(0));
}

#[test]
fn history_capacity_quantization() {
    assert_eq!(history_target_capacity(0), MIN_HISTORY_CAPACITY);
    assert_eq!(history_target_capacity(256), 256);
    assert_eq!(history_target_capacity(257), 512);
    assert_eq!(history_target_capacity(65536), 65536);
    assert_eq!(history_target_capacity(200_000), MAX_HISTORY_CAPACITY);
    assert_eq!(history_target_capacity(usize::MAX), MAX_HISTORY_CAPACITY);
    assert_eq!(resize_tail(512, 16384), (0, 512));
    assert_eq!(resize_tail(4096, 1024), (3072, 1024));
}

#[test]
fn texture_clock_geometry_and_schedule() {
    let mut t = TextureClock::new(100, 0);
    assert_eq!(t.window_capacity(), 100);
    assert_eq!(t.hop(), 25);
    assert_eq!(t.ref_range(), 12);
    assert_eq!(t.fade_state(), (0, 1));
    let small = TextureClock::new(10, 5);
    assert_eq!(small.window_capacity(), 64);
    assert_eq!(small.hop(), 16);
    assert_eq!(small.ref_range(), 8);

    assert!(t.tick(50, 4, 0));
    assert_eq!(t.refreshes(), 1);
    assert!(!t.tick(50, 4, 49));
    assert!(t.tick(50, 4, 50));
    assert_eq!(t.refreshes(), 2);
    assert_eq!(t.fade_state(), (0, 4));

    assert_eq!(t.prev_tail_len(49), 0);
    assert_eq!(t.prev_tail_len(50), 50);
    assert_eq!(t.prev_tail_len(200), 125);

    // a crossfade lasts exactly the crossfade length
    t.start_crossfade();
    assert!(!t.advance_fade());
    assert!(!t.advance_fade());
    assert!(!t.advance_fade());
    assert!(t.advance_fade());
    assert!(!t.advance_fade());

    assert!(!t.resize(100));
    assert!(t.resize(200));
    assert_eq!(t.window_capacity(), 200);
    assert_eq!(t.hop(), 50);
    assert!(t.tick(50, 4, 60));
    t.start_crossfade();
    t.clear();
    assert_eq!(t.fade_state(), (0, 4));
    t.reschedule();
    assert!(t.tick(50, 4, 61));
}

#[test]
fn life_clock_runs_attack_then_decay_then_dies() {
    let mut c = LifeClock::new(2, 4);
    assert_eq!(c.lifetime(), 4);
    assert_eq!(c.tick(), LifeStep::Attack { elapsed: 1, total: 2 });
    assert_eq!(c.tick(), LifeStep::Attack { elapsed: 2, total: 2 });
    assert_eq!(c.tick(), LifeStep::Decay);
    assert_eq!(c.tick(), LifeStep::Decay);
    assert_eq!(c.tick(), LifeStep::Dead);
    assert_eq!(c.tick(), LifeStep::Dead);
    assert_eq!(c.lifetime(), 0);

    // zero lifetime lives one sample; the attack never outlasts the life
    let mut z = LifeClock::new(10, 0);
    assert_eq!(z.lifetime(), 1);
    assert_eq!(z.tick(), LifeStep::Attack { elapsed: 1, total: 1 });
    assert_eq!(z.tick(), LifeStep::Dead);
}

#[test]
fn spawn_event_is_plain_data() {
    let e = SpawnEvent { lifetime_samples: 480, live: 3 };
    assert_eq!(e, SpawnEvent { lifetime_samples: 480, live: 3 });
}

#[test]
fn labels_and_log_scale() {
    assert_eq!(label("spawn_sync"), "Sync");
    assert_eq!(label("feedback_damping_hz"), "FB Damp");
    assert_eq!(label("dry"), "Dry");
    assert_eq!(label("history_len_ms"), "history_len_ms");
    assert!(log_param("texture_stretch"));
    assert!(log_param("peak_update_ms"));
    assert!(!log_param("lfo_depth"));
    assert!(!log_param(""));
}

#[test]
fn row_conditions() {
    assert!(cond_matches(0, 3, false));
    assert!(cond_matches(2, 1, false));
    assert!(!cond_matches(2, 2, false));
    assert!(cond_matches(5, 0, true));
    assert!(!cond_matches(5, 0, false));
    assert!(cond_matches(6, 0, false));
    assert!(!cond_matches(7, 0, true));
    let conds = [0u8, 2, 2, 3, 3, 4, 4, 4];
    assert_eq!(visible_rows(&conds, 1, false), 3);
    assert_eq!(visible_rows(&conds, 3, false), 4);
    assert_eq!(visible_rows(&[0u8, 6, 5], 0, true), 2);
}

#[test]
fn option_names_and_page_clamp() {
    assert_eq!(discrete_options("position_mode").to_vec(), vec!["Fixed", "LFO", "Walk", "Peak"]);
    assert_eq!(discrete_options("lfo_wave").len(), 8);
    assert_eq!(discrete_options("lfo_wave")[7], "7");
    assert_eq!(clamp_page(5, 3), 2);
    assert_eq!(clamp_page(1, 3), 1);
    assert_eq!(clamp_page(4, 0), 0);
}

#[test]
fn shuffled_slots_is_the_fixed_permutation() {
    let order = shuffled_slots();
    assert_eq!(
        order,
        vec![
            20, 10, 33, 13, 6, 8, 11, 12, 32, 26, 35, 9, 3, 17, 7, 31, 0, 27, 2, 19, 21, 24, 25,
            29, 22, 18, 23, 28, 34, 1, 14, 4, 16, 30, 15, 5
        ]
    );
    let mut sorted = order.clone();
    sorted.sort();
    assert_eq!(sorted, (0..RINGS * DOTS_PER_RING).collect::<Vec<_>>());
}

#[test]
fn consecutive_spawns_light_distinct_dots() {
    let order = shuffled_slots();
    for start in [0usize, 5, 35, 100] {
        let mut seen = Vec::new();
        for k in 0..RINGS * DOTS_PER_RING {
            let (ring, slot) = dot_slot(&order, start + k);
            assert!(ring < RINGS && slot < DOTS_PER_RING);
            assert!(!seen.contains(&(ring, slot)));
            seen.push((ring, slot));
        }
    }
    // the first event lights the dot of slot number 20: ring 2, slot 6
    assert_eq!(dot_slot(&order, 0), (2, 6));
}

#[test]
fn panels_are_mutually_exclusive() {
    let mut n = PanelNav::new();
    assert!(!n.left_open() && !n.right_open());
    n.toggle_left();
    assert!(n.left_open() && !n.right_open());
    n.toggle_right();
    assert!(!n.left_open() && n.right_open());
    n.toggle_right();
    assert!(!n.left_open() && !n.right_open());
    assert!(n.select_page(1, 2));
    assert!(!n.select_page(1, 2));
    assert_eq!(n.page(1), 2);
    assert_eq!(n.page(0), 0);
}

#[test]
fn generation_counts_bumps_between_polls_and_resets() {
    let mut s = Spawner::new();
    for k in 0..50usize {
        s.bump_sequence();
        assert!(s.poll(k * 10, 10));
        assert!(!s.poll(k * 10 + 1, 10));
        assert_eq!(s.sequence_index(), k + 1);
    }
    s.reset(0);
    assert_eq!(s.sequence_index(), 0);
    s.bump_sequence();
    assert_eq!(s.sequence_index(), 1);
}

#[test]
fn sample_steps_keep_live_within_limit() {
    // max_particles 8, a spawn every 5 ms, 40 ms lives (48 kHz)
    let mut c: CloudState<usize> = CloudState::new(48_000);
    let limit = 8usize;
    let interval = 240usize;
    let life = 1920usize;
    let mut last_birth = 0usize;
    for sample in 0..(5 * 48_000usize) {
        c.begin_sample();
        let due = c.poll_free_run(interval);
        let before = c.spawned();
        let born = c.spawn_phase(due, limit, |_n| life);
        assert!(c.spawned() <= before + 1);
        if born.is_some() {
            last_birth = sample;
        }
        c.particle_pass((), |(), left: usize| ((), if left <= 1 { None } else { Some(left - 1) }));
        assert!(c.live_count() <= limit);
    }
    assert!(last_birth > 4 * 48_000, "pool must keep refilling, last spawn {last_birth}");
    assert!(c.spawned() > 100);
}

#[test]
fn particle_pass_frees_dead_slots_in_order() {
    let mut c: CloudState<u32> = CloudState::new(48_000);
    for v in 0..5u32 {
        c.spawn_phase(true, 10, |_n| v);
    }
    // slots 1 and 3 die, the rest live on unchanged
    let seen = c.particle_pass(Vec::new(), |mut seen: Vec<u32>, p: u32| {
        seen.push(p);
        (seen, if p == 1 || p == 3 { None } else { Some(p) })
    });
    // every live particle visited once, in slot order
    assert_eq!(seen, vec![0, 1, 2, 3, 4]);
    assert_eq!(c.live_count(), 3);
    assert_eq!(c.particle(1), None);
    assert_eq!(c.particle(2), Some(&2));
    // freed in slot order: 3 is reused first, then 1
    assert_eq!(c.spawn_phase(true, 10, |_n| 30), Some(3));
    assert_eq!(c.spawn_phase(true, 10, |_n| 31), Some(1));
    // not due: nothing happens; refused: generation still moves
    assert_eq!(c.spawn_phase(false, 10, |_n| 99), None);
    assert_eq!(c.spawn_phase(true, 5, |n| n as u32), None);
    assert_eq!(c.live_count(), 5);
}

#[test]
fn particle_pass_threads_state_in_slot_order_and_keeps_returned_particles() {
    let mut c: CloudState<u32> = CloudState::new(48_000);
    for v in [10u32, 20, 30, 40] {
        c.spawn_phase(true, 10, |_n| v);
    }
    // slot 1 dies before the pass; it is skipped
    assert_eq!(c.take_particle(1), Some(20));
    // each visit sees what the earlier ones wrote into the pass state
    let total = c.particle_pass(0u32, |acc: u32, p: u32| (acc * 100 + p, Some(p + acc)));
    assert_eq!(total, (10 * 100 + 30) * 100 + 40);
    assert_eq!(c.particle(0), Some(&10));
    assert_eq!(c.particle(1), None);
    assert_eq!(c.particle(2), Some(&(30 + 10)));
    assert_eq!(c.particle(3), Some(&(40 + 1030)));
    assert_eq!(c.live_count(), 3);
    // an empty pool: the state comes back untouched
    let mut e: CloudState<u32> = CloudState::new(48_000);
    assert_eq!(e.particle_pass(7u32, |acc: u32, p: u32| (acc + p, Some(p))), 7);
}

#[test]
fn every_labelled_parameter_gets_its_own_label() {
    let ids = [
        "spawn_interval_ms", "spawn_sync", "position_mode", "max_particles", "reverse_chance",
        "random_walk_step", "random_walk_interval_ms", "peak_window_ms", "peak_update_ms",
        "peak_threshold", "spawn_interval_beats", "fallback_bpm", "lfo_rate_hz", "lfo_depth",
        "position_smooth_ms", "texture_blend", "texture_window_ms", "texture_refresh_ms",
        "texture_stretch", "texture_crossfade_ms", "pitch_min", "pitch_max", "freq_shift_min",
        "freq_shift_max", "feedback_gain", "feedback_delay_ms", "feedback_damping_hz",
        "lifetime_ms_min", "lifetime_ms_max", "attack_ms", "base_position", "position_step",
        "position_jitter", "gain_decay_ratio", "min_gain_ratio", "initial_gain", "pan_min",
        "pan_max", "wet", "dry",
    ];
    let labels: Vec<String> = ids.iter().map(|id| label(id)).collect();
    for (i, l) in labels.iter().enumerate() {
        assert_ne!(l, ids[i]);
        for m in &labels[i + 1..] {
            assert_ne!(l, m);
        }
    }
}
