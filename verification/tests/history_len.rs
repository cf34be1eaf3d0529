//! History resizing: the delay line follows the history_len parameters
//! (ms when sync off, beats when on), and the freshest tail survives a
//! shrink.

use particula::{history_target_capacity, resize_tail};

const SR: usize = 48_000;

/// Requested history length in samples for a length in milliseconds.
fn ms_target(ms: f32) -> usize {
    (ms * SR as f32 / 1000.0) as usize
}

/// Requested history length in samples for a length in beats at `bpm`.
fn beats_target(beats: f32, bpm: f32) -> usize {
    (beats.max(0.03125) * 60.0 / bpm.max(1.0) * SR as f32) as usize
}

#[test]
fn history_resizes_ms_and_beats_and_keeps_tail() {
    // A 512-sample line is already a quantized capacity: no rebuild.
    assert_eq!(history_target_capacity(512), 512);

    // 200ms @48k = 9600 -> pow2 16384
    let cap = history_target_capacity(ms_target(200.0));
    assert_eq!(cap, 16384, "ms-driven resize target");

    // Beat-driven target (sync on): 2 beats @ 120 BPM -> 1 s = 48000
    // -> pow2 65536.
    let cap2 = history_target_capacity(beats_target(2.0, 120.0));
    assert_eq!(cap2, 65536, "beats-driven resize");

    // Shrink back: the freshest tail of the old line is what survives.
    let cap3 = history_target_capacity(ms_target(30.0)); // 1440 -> pow2 2048
    assert_eq!(cap3, 2048, "shrink target");
    assert_eq!(resize_tail(cap2, cap3), (65536 - 2048, 2048));
}
