# particula

The verified integer core of Particula, an experimental granular-cloud audio
effect, plus the floating-point engine and plugin shell around it.

- `src/` — the library, verified with Verus:
  - `rng.rs` — SplitMix64 generator (exact output stream, bounded integer draws)
  - `spawner.rs` — spawn clock and generation counter; periodic schedules
  - `pool.rs` — particle slot map with free list (at most 192 live particles)
  - `engine.rs` — per-sample bookkeeping: sample rate, sample clock, spawn
    admission, spawn counter, peak-update schedule
  - `history.rs` — ring slot arithmetic of the shared delay line, history
    capacity quantization
  - `texture.rs` — refresh schedule and crossfade countdown of the texture layer
  - `particle.rs` — a particle's lifetime and attack counters
  - `ui.rs` — parameter labels, panel rows, sigil dot lighting order, panel
    navigation
- `tests/` — tests of the library on concrete values.
- `app/` — the audio sample path (floating point), the CLAP processor and the
  iced control surface, built on the library.
