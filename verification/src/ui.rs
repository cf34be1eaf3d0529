//! Decisions of the control surface: parameter labels, which parameter rows
//! a panel page shows, which sigil dot a newborn particle lights, and which
//! side panel is open.

use vstd::prelude::*;
use crate::rng::{splitmix_advance, splitmix_mix, SplitMix64};

verus! {

/// Number of concentric rings on the sigil.
pub const RINGS: usize = 3;

/// Dots on each ring (a circular slot buffer per ring).
pub const DOTS_PER_RING: usize = 12;

/// Seed of the fixed dot lighting order.
pub const SLOT_ORDER_SEED: u64 = 0x51A6;

/// Whether `id` names `lit`.
fn is_id(id: &String, lit: &str) -> (r: bool)
    ensures
        r == (id@ == lit@),
{
    let l = lit.to_owned();
    *id == l
}

/// The short label of a parameter id (the id itself when it has none).
pub open spec fn label_spec(id: Seq<char>) -> Seq<char> {
    if id == "spawn_interval_ms"@ { "Interval"@ }
    else if id == "spawn_sync"@ { "Sync"@ }
    else if id == "position_mode"@ { "Mode"@ }
    else if id == "max_particles"@ { "Pool"@ }
    else if id == "reverse_chance"@ { "Reverse"@ }
    else if id == "random_walk_step"@ { "Walk Step"@ }
    else if id == "random_walk_interval_ms"@ { "Walk Int"@ }
    else if id == "peak_window_ms"@ { "Peak Win"@ }
    else if id == "peak_update_ms"@ { "Peak Upd"@ }
    else if id == "peak_threshold"@ { "Peak Thr"@ }
    else if id == "spawn_interval_beats"@ { "Beats"@ }
    else if id == "fallback_bpm"@ { "Fallback"@ }
    else if id == "lfo_rate_hz"@ { "LFO Rate"@ }
    else if id == "lfo_depth"@ { "LFO Depth"@ }
    else if id == "position_smooth_ms"@ { "Smooth"@ }
    else if id == "texture_blend"@ { "Texture"@ }
    else if id == "texture_window_ms"@ { "Window"@ }
    else if id == "texture_refresh_ms"@ { "Refresh"@ }
    else if id == "texture_stretch"@ { "Stretch"@ }
    else if id == "texture_crossfade_ms"@ { "Fade"@ }
    else if id == "pitch_min"@ { "Pitch Min"@ }
    else if id == "pitch_max"@ { "Pitch Max"@ }
    else if id == "freq_shift_min"@ { "Shift Min"@ }
    else if id == "freq_shift_max"@ { "Shift Max"@ }
    else if id == "feedback_gain"@ { "Feedback"@ }
    else if id == "feedback_delay_ms"@ { "FB Delay"@ }
    else if id == "feedback_damping_hz"@ { "FB Damp"@ }
    else if id == "lifetime_ms_min"@ { "Life Min"@ }
    else if id == "lifetime_ms_max"@ { "Life Max"@ }
    else if id == "attack_ms"@ { "Attack"@ }
    else if id == "base_position"@ { "Base Pos"@ }
    else if id == "position_step"@ { "Pos Step"@ }
    else if id == "position_jitter"@ { "Jitter"@ }
    else if id == "gain_decay_ratio"@ { "Decay"@ }
    else if id == "min_gain_ratio"@ { "Gain Floor"@ }
    else if id == "initial_gain"@ { "Init Gain"@ }
    else if id == "pan_min"@ { "Pan Min"@ }
    else if id == "pan_max"@ { "Pan Max"@ }
    else if id == "wet"@ { "Wet"@ }
    else if id == "dry"@ { "Dry"@ }
    else { id }
}

/// Length, first, last, third-to-last and middle character of a parameter
/// id: enough to tell the ids apart.
spec fn id_key(s: Seq<char>) -> (nat, char, char, char, char) {
    (s.len(), s[0], s[s.len() - 1], s[s.len() - 3], s[(s.len() / 2) as int])
}

/// The keys of the exposed parameter ids, which tell them apart.
proof fn lemma_id_keys()
    ensures
        id_key("spawn_interval_ms"@) == (17nat, 's', 's', '_', 't'),
        id_key("spawn_sync"@) == (10nat, 's', 'c', 'y', '_'),
        id_key("position_mode"@) == (13nat, 'p', 'e', 'o', 'o'),
        id_key("max_particles"@) == (13nat, 'm', 's', 'l', 'r'),
        id_key("reverse_chance"@) == (14nat, 'r', 'e', 'n', '_'),
        id_key("random_walk_step"@) == (16nat, 'r', 'p', 't', 'a'),
        id_key("random_walk_interval_ms"@) == (23nat, 'r', 's', '_', '_'),
        id_key("peak_window_ms"@) == (14nat, 'p', 's', '_', 'n'),
        id_key("peak_update_ms"@) == (14nat, 'p', 's', '_', 'd'),
        id_key("peak_threshold"@) == (14nat, 'p', 'd', 'o', 'r'),
        id_key("spawn_interval_beats"@) == (20nat, 's', 's', 'a', 'r'),
        id_key("fallback_bpm"@) == (12nat, 'f', 'm', 'b', 'c'),
        id_key("lfo_rate_hz"@) == (11nat, 'l', 'z', '_', 'a'),
        id_key("lfo_depth"@) == (9nat, 'l', 'h', 'p', 'd'),
        id_key("position_smooth_ms"@) == (18nat, 'p', 's', '_', 's'),
        id_key("texture_blend"@) == (13nat, 't', 'd', 'e', 'e'),
        id_key("texture_window_ms"@) == (17nat, 't', 's', '_', 'w'),
        id_key("texture_refresh_ms"@) == (18nat, 't', 's', '_', 'e'),
        id_key("texture_stretch"@) == (15nat, 't', 'h', 't', '_'),
        id_key("texture_crossfade_ms"@) == (20nat, 't', 's', '_', 'o'),
        id_key("pitch_min"@) == (9nat, 'p', 'n', 'm', 'h'),
        id_key("pitch_max"@) == (9nat, 'p', 'x', 'm', 'h'),
        id_key("freq_shift_min"@) == (14nat, 'f', 'n', 'm', 'i'),
        id_key("freq_shift_max"@) == (14nat, 'f', 'x', 'm', 'i'),
        id_key("feedback_gain"@) == (13nat, 'f', 'n', 'a', 'c'),
        id_key("feedback_delay_ms"@) == (17nat, 'f', 's', '_', '_'),
        id_key("feedback_damping_hz"@) == (19nat, 'f', 'z', '_', 'd'),
        id_key("lifetime_ms_min"@) == (15nat, 'l', 'n', 'm', 'e'),
        id_key("lifetime_ms_max"@) == (15nat, 'l', 'x', 'm', 'e'),
        id_key("attack_ms"@) == (9nat, 'a', 's', '_', 'c'),
        id_key("base_position"@) == (13nat, 'b', 'n', 'i', 'o'),
        id_key("position_step"@) == (13nat, 'p', 'p', 't', 'o'),
        id_key("position_jitter"@) == (15nat, 'p', 'r', 't', 'n'),
        id_key("gain_decay_ratio"@) == (16nat, 'g', 'o', 't', 'a'),
        id_key("min_gain_ratio"@) == (14nat, 'm', 'o', 't', 'n'),
        id_key("initial_gain"@) == (12nat, 'i', 'n', 'a', 'l'),
        id_key("pan_min"@) == (7nat, 'p', 'n', 'm', '_'),
        id_key("pan_max"@) == (7nat, 'p', 'x', 'm', '_'),
        id_key("wet"@) == (3nat, 'w', 't', 'w', 'e'),
        id_key("dry"@) == (3nat, 'd', 'y', 'd', 'r'),
{
    reveal_strlit("spawn_interval_ms");
    reveal_strlit("spawn_sync");
    reveal_strlit("position_mode");
    reveal_strlit("max_particles");
    reveal_strlit("reverse_chance");
    reveal_strlit("random_walk_step");
    reveal_strlit("random_walk_interval_ms");
    reveal_strlit("peak_window_ms");
    reveal_strlit("peak_update_ms");
    reveal_strlit("peak_threshold");
    reveal_strlit("spawn_interval_beats");
    reveal_strlit("fallback_bpm");
    reveal_strlit("lfo_rate_hz");
    reveal_strlit("lfo_depth");
    reveal_strlit("position_smooth_ms");
    reveal_strlit("texture_blend");
    reveal_strlit("texture_window_ms");
    reveal_strlit("texture_refresh_ms");
    reveal_strlit("texture_stretch");
    reveal_strlit("texture_crossfade_ms");
    reveal_strlit("pitch_min");
    reveal_strlit("pitch_max");
    reveal_strlit("freq_shift_min");
    reveal_strlit("freq_shift_max");
    reveal_strlit("feedback_gain");
    reveal_strlit("feedback_delay_ms");
    reveal_strlit("feedback_damping_hz");
    reveal_strlit("lifetime_ms_min");
    reveal_strlit("lifetime_ms_max");
    reveal_strlit("attack_ms");
    reveal_strlit("base_position");
    reveal_strlit("position_step");
    reveal_strlit("position_jitter");
    reveal_strlit("gain_decay_ratio");
    reveal_strlit("min_gain_ratio");
    reveal_strlit("initial_gain");
    reveal_strlit("pan_min");
    reveal_strlit("pan_max");
    reveal_strlit("wet");
    reveal_strlit("dry");
}

/// The label table: each of the exposed parameters has its fixed short
/// label.
pub proof fn lemma_label_table()
    ensures
        label_spec("spawn_interval_ms"@) == "Interval"@,
        label_spec("spawn_sync"@) == "Sync"@,
        label_spec("position_mode"@) == "Mode"@,
        label_spec("max_particles"@) == "Pool"@,
        label_spec("reverse_chance"@) == "Reverse"@,
        label_spec("random_walk_step"@) == "Walk Step"@,
        label_spec("random_walk_interval_ms"@) == "Walk Int"@,
        label_spec("peak_window_ms"@) == "Peak Win"@,
        label_spec("peak_update_ms"@) == "Peak Upd"@,
        label_spec("peak_threshold"@) == "Peak Thr"@,
        label_spec("spawn_interval_beats"@) == "Beats"@,
        label_spec("fallback_bpm"@) == "Fallback"@,
        label_spec("lfo_rate_hz"@) == "LFO Rate"@,
        label_spec("lfo_depth"@) == "LFO Depth"@,
        label_spec("position_smooth_ms"@) == "Smooth"@,
        label_spec("texture_blend"@) == "Texture"@,
        label_spec("texture_window_ms"@) == "Window"@,
        label_spec("texture_refresh_ms"@) == "Refresh"@,
        label_spec("texture_stretch"@) == "Stretch"@,
        label_spec("texture_crossfade_ms"@) == "Fade"@,
        label_spec("pitch_min"@) == "Pitch Min"@,
        label_spec("pitch_max"@) == "Pitch Max"@,
        label_spec("freq_shift_min"@) == "Shift Min"@,
        label_spec("freq_shift_max"@) == "Shift Max"@,
        label_spec("feedback_gain"@) == "Feedback"@,
        label_spec("feedback_delay_ms"@) == "FB Delay"@,
        label_spec("feedback_damping_hz"@) == "FB Damp"@,
        label_spec("lifetime_ms_min"@) == "Life Min"@,
        label_spec("lifetime_ms_max"@) == "Life Max"@,
        label_spec("attack_ms"@) == "Attack"@,
        label_spec("base_position"@) == "Base Pos"@,
        label_spec("position_step"@) == "Pos Step"@,
        label_spec("position_jitter"@) == "Jitter"@,
        label_spec("gain_decay_ratio"@) == "Decay"@,
        label_spec("min_gain_ratio"@) == "Gain Floor"@,
        label_spec("initial_gain"@) == "Init Gain"@,
        label_spec("pan_min"@) == "Pan Min"@,
        label_spec("pan_max"@) == "Pan Max"@,
        label_spec("wet"@) == "Wet"@,
        label_spec("dry"@) == "Dry"@,
{
    lemma_id_keys();
}

/// Which exposed parameters get a logarithmic slider: the time, rate,
/// pitch, decay and level parameters listed true below, and none of the
/// others.
pub proof fn lemma_log_scale_table()
    ensures
        log_param_spec("spawn_interval_ms"@) == true,
        log_param_spec("spawn_sync"@) == false,
        log_param_spec("position_mode"@) == false,
        log_param_spec("max_particles"@) == false,
        log_param_spec("reverse_chance"@) == false,
        log_param_spec("random_walk_step"@) == false,
        log_param_spec("random_walk_interval_ms"@) == true,
        log_param_spec("peak_window_ms"@) == true,
        log_param_spec("peak_update_ms"@) == true,
        log_param_spec("peak_threshold"@) == false,
        log_param_spec("spawn_interval_beats"@) == true,
        log_param_spec("fallback_bpm"@) == true,
        log_param_spec("lfo_rate_hz"@) == true,
        log_param_spec("lfo_depth"@) == false,
        log_param_spec("position_smooth_ms"@) == true,
        log_param_spec("texture_blend"@) == false,
        log_param_spec("texture_window_ms"@) == true,
        log_param_spec("texture_refresh_ms"@) == true,
        log_param_spec("texture_stretch"@) == true,
        log_param_spec("texture_crossfade_ms"@) == true,
        log_param_spec("pitch_min"@) == true,
        log_param_spec("pitch_max"@) == true,
        log_param_spec("freq_shift_min"@) == false,
        log_param_spec("freq_shift_max"@) == false,
        log_param_spec("feedback_gain"@) == false,
        log_param_spec("feedback_delay_ms"@) == false,
        log_param_spec("feedback_damping_hz"@) == false,
        log_param_spec("lifetime_ms_min"@) == true,
        log_param_spec("lifetime_ms_max"@) == true,
        log_param_spec("attack_ms"@) == false,
        log_param_spec("base_position"@) == false,
        log_param_spec("position_step"@) == false,
        log_param_spec("position_jitter"@) == false,
        log_param_spec("gain_decay_ratio"@) == true,
        log_param_spec("min_gain_ratio"@) == false,
        log_param_spec("initial_gain"@) == false,
        log_param_spec("pan_min"@) == false,
        log_param_spec("pan_max"@) == false,
        log_param_spec("wet"@) == true,
        log_param_spec("dry"@) == true,
{
    lemma_id_keys();
}

/// Length, first, second and last character of a label: enough to tell
/// the labels apart.
spec fn label_key(s: Seq<char>) -> (nat, char, char, char) {
    (s.len(), s[0], s[1], s[s.len() - 1])
}

/// No two parameters share a short label: two different ids that both
/// have a label (their label is not the id itself) get different labels.
pub proof fn lemma_labels_distinct(a: Seq<char>, b: Seq<char>)
    requires
        label_spec(a) != a,
        label_spec(b) != b,
        a != b,
    ensures
        label_spec(a) != label_spec(b),
{
    reveal_strlit("Interval");
    assert(label_key("Interval"@) == (8nat, 'I', 'n', 'l'));
    reveal_strlit("Sync");
    assert(label_key("Sync"@) == (4nat, 'S', 'y', 'c'));
    reveal_strlit("Mode");
    assert(label_key("Mode"@) == (4nat, 'M', 'o', 'e'));
    reveal_strlit("Pool");
    assert(label_key("Pool"@) == (4nat, 'P', 'o', 'l'));
    reveal_strlit("Reverse");
    assert(label_key("Reverse"@) == (7nat, 'R', 'e', 'e'));
    reveal_strlit("Walk Step");
    assert(label_key("Walk Step"@) == (9nat, 'W', 'a', 'p'));
    reveal_strlit("Walk Int");
    assert(label_key("Walk Int"@) == (8nat, 'W', 'a', 't'));
    reveal_strlit("Peak Win");
    assert(label_key("Peak Win"@) == (8nat, 'P', 'e', 'n'));
    reveal_strlit("Peak Upd");
    assert(label_key("Peak Upd"@) == (8nat, 'P', 'e', 'd'));
    reveal_strlit("Peak Thr");
    assert(label_key("Peak Thr"@) == (8nat, 'P', 'e', 'r'));
    reveal_strlit("Beats");
    assert(label_key("Beats"@) == (5nat, 'B', 'e', 's'));
    reveal_strlit("Fallback");
    assert(label_key("Fallback"@) == (8nat, 'F', 'a', 'k'));
    reveal_strlit("LFO Rate");
    assert(label_key("LFO Rate"@) == (8nat, 'L', 'F', 'e'));
    reveal_strlit("LFO Depth");
    assert(label_key("LFO Depth"@) == (9nat, 'L', 'F', 'h'));
    reveal_strlit("Smooth");
    assert(label_key("Smooth"@) == (6nat, 'S', 'm', 'h'));
    reveal_strlit("Texture");
    assert(label_key("Texture"@) == (7nat, 'T', 'e', 'e'));
    reveal_strlit("Window");
    assert(label_key("Window"@) == (6nat, 'W', 'i', 'w'));
    reveal_strlit("Refresh");
    assert(label_key("Refresh"@) == (7nat, 'R', 'e', 'h'));
    reveal_strlit("Stretch");
    assert(label_key("Stretch"@) == (7nat, 'S', 't', 'h'));
    reveal_strlit("Fade");
    assert(label_key("Fade"@) == (4nat, 'F', 'a', 'e'));
    reveal_strlit("Pitch Min");
    assert(label_key("Pitch Min"@) == (9nat, 'P', 'i', 'n'));
    reveal_strlit("Pitch Max");
    assert(label_key("Pitch Max"@) == (9nat, 'P', 'i', 'x'));
    reveal_strlit("Shift Min");
    assert(label_key("Shift Min"@) == (9nat, 'S', 'h', 'n'));
    reveal_strlit("Shift Max");
    assert(label_key("Shift Max"@) == (9nat, 'S', 'h', 'x'));
    reveal_strlit("Feedback");
    assert(label_key("Feedback"@) == (8nat, 'F', 'e', 'k'));
    reveal_strlit("FB Delay");
    assert(label_key("FB Delay"@) == (8nat, 'F', 'B', 'y'));
    reveal_strlit("FB Damp");
    assert(label_key("FB Damp"@) == (7nat, 'F', 'B', 'p'));
    reveal_strlit("Life Min");
    assert(label_key("Life Min"@) == (8nat, 'L', 'i', 'n'));
    reveal_strlit("Life Max");
    assert(label_key("Life Max"@) == (8nat, 'L', 'i', 'x'));
    reveal_strlit("Attack");
    assert(label_key("Attack"@) == (6nat, 'A', 't', 'k'));
    reveal_strlit("Base Pos");
    assert(label_key("Base Pos"@) == (8nat, 'B', 'a', 's'));
    reveal_strlit("Pos Step");
    assert(label_key("Pos Step"@) == (8nat, 'P', 'o', 'p'));
    reveal_strlit("Jitter");
    assert(label_key("Jitter"@) == (6nat, 'J', 'i', 'r'));
    reveal_strlit("Decay");
    assert(label_key("Decay"@) == (5nat, 'D', 'e', 'y'));
    reveal_strlit("Gain Floor");
    assert(label_key("Gain Floor"@) == (10nat, 'G', 'a', 'r'));
    reveal_strlit("Init Gain");
    assert(label_key("Init Gain"@) == (9nat, 'I', 'n', 'n'));
    reveal_strlit("Pan Min");
    assert(label_key("Pan Min"@) == (7nat, 'P', 'a', 'n'));
    reveal_strlit("Pan Max");
    assert(label_key("Pan Max"@) == (7nat, 'P', 'a', 'x'));
    reveal_strlit("Wet");
    assert(label_key("Wet"@) == (3nat, 'W', 'e', 't'));
    reveal_strlit("Dry");
    assert(label_key("Dry"@) == (3nat, 'D', 'r', 'y'));
    assert(label_key(label_spec(a)) != label_key(label_spec(b)));
}

/// Short label for an exposed parameter.
pub fn label(id: &str) -> (r: String)
    ensures
        r@ == label_spec(id@),
{
    let o = id.to_owned();
    let name: &str = if is_id(&o, "spawn_interval_ms") { "Interval" }
    else if is_id(&o, "spawn_sync") { "Sync" }
    else if is_id(&o, "position_mode") { "Mode" }
    else if is_id(&o, "max_particles") { "Pool" }
    else if is_id(&o, "reverse_chance") { "Reverse" }
    else if is_id(&o, "random_walk_step") { "Walk Step" }
    else if is_id(&o, "random_walk_interval_ms") { "Walk Int" }
    else if is_id(&o, "peak_window_ms") { "Peak Win" }
    else if is_id(&o, "peak_update_ms") { "Peak Upd" }
    else if is_id(&o, "peak_threshold") { "Peak Thr" }
    else if is_id(&o, "spawn_interval_beats") { "Beats" }
    else if is_id(&o, "fallback_bpm") { "Fallback" }
    else if is_id(&o, "lfo_rate_hz") { "LFO Rate" }
    else if is_id(&o, "lfo_depth") { "LFO Depth" }
    else if is_id(&o, "position_smooth_ms") { "Smooth" }
    else if is_id(&o, "texture_blend") { "Texture" }
    else if is_id(&o, "texture_window_ms") { "Window" }
    else if is_id(&o, "texture_refresh_ms") { "Refresh" }
    else if is_id(&o, "texture_stretch") { "Stretch" }
    else if is_id(&o, "texture_crossfade_ms") { "Fade" }
    else if is_id(&o, "pitch_min") { "Pitch Min" }
    else if is_id(&o, "pitch_max") { "Pitch Max" }
    else if is_id(&o, "freq_shift_min") { "Shift Min" }
    else if is_id(&o, "freq_shift_max") { "Shift Max" }
    else if is_id(&o, "feedback_gain") { "Feedback" }
    else if is_id(&o, "feedback_delay_ms") { "FB Delay" }
    else if is_id(&o, "feedback_damping_hz") { "FB Damp" }
    else if is_id(&o, "lifetime_ms_min") { "Life Min" }
    else if is_id(&o, "lifetime_ms_max") { "Life Max" }
    else if is_id(&o, "attack_ms") { "Attack" }
    else if is_id(&o, "base_position") { "Base Pos" }
    else if is_id(&o, "position_step") { "Pos Step" }
    else if is_id(&o, "position_jitter") { "Jitter" }
    else if is_id(&o, "gain_decay_ratio") { "Decay" }
    else if is_id(&o, "min_gain_ratio") { "Gain Floor" }
    else if is_id(&o, "initial_gain") { "Init Gain" }
    else if is_id(&o, "pan_min") { "Pan Min" }
    else if is_id(&o, "pan_max") { "Pan Max" }
    else if is_id(&o, "wet") { "Wet" }
    else if is_id(&o, "dry") { "Dry" }
    else { id };
    name.to_owned()
}

/// Parameters whose slider uses a logarithmic scale.
pub open spec fn log_param_spec(id: Seq<char>) -> bool {
    ||| id == "spawn_interval_ms"@
    ||| id == "spawn_interval_beats"@
    ||| id == "lifetime_ms_min"@
    ||| id == "lifetime_ms_max"@
    ||| id == "fallback_bpm"@
    ||| id == "lfo_rate_hz"@
    ||| id == "position_smooth_ms"@
    ||| id == "texture_window_ms"@
    ||| id == "texture_refresh_ms"@
    ||| id == "texture_crossfade_ms"@
    ||| id == "texture_stretch"@
    ||| id == "pitch_min"@
    ||| id == "pitch_max"@
    ||| id == "gain_decay_ratio"@
    ||| id == "dry"@
    ||| id == "wet"@
    ||| id == "random_walk_interval_ms"@
    ||| id == "peak_window_ms"@
    ||| id == "peak_update_ms"@
}

/// Whether the parameter's slider should use a logarithmic scale.
pub fn log_param(id: &str) -> (r: bool)
    ensures
        r == log_param_spec(id@),
{
    let o = id.to_owned();
    is_id(&o, "spawn_interval_ms") || is_id(&o, "spawn_interval_beats") || is_id(
        &o,
        "lifetime_ms_min",
    ) || is_id(&o, "lifetime_ms_max") || is_id(&o, "fallback_bpm") || is_id(&o, "lfo_rate_hz")
        || is_id(&o, "position_smooth_ms") || is_id(&o, "texture_window_ms") || is_id(
        &o,
        "texture_refresh_ms",
    ) || is_id(&o, "texture_crossfade_ms") || is_id(&o, "texture_stretch") || is_id(
        &o,
        "pitch_min",
    ) || is_id(&o, "pitch_max") || is_id(&o, "gain_decay_ratio") || is_id(&o, "dry") || is_id(
        &o,
        "wet",
    ) || is_id(&o, "random_walk_interval_ms") || is_id(&o, "peak_window_ms") || is_id(
        &o,
        "peak_update_ms",
    )
}

/// Whether a parameter row with condition code `cond` shows: 0 always,
/// 1..=4 in position mode `cond - 1` (Fixed, LFO, RandomWalk, PeakFollow),
/// 5 while spawn sync is on, 6 while it is off, never otherwise.
pub open spec fn cond_matches_spec(cond: u8, mode: usize, sync_on: bool) -> bool {
    if cond == 0 {
        true
    } else if 1 <= cond <= 4 {
        cond == mode + 1
    } else if cond == 5 {
        sync_on
    } else if cond == 6 {
        !sync_on
    } else {
        false
    }
}

/// Which rows show: code 0 always; codes 1, 2, 3 and 4 exactly in position
/// mode 0, 1, 2 and 3 (Fixed, LFO, RandomWalk, PeakFollow); code 5 exactly
/// while spawn sync is on, code 6 exactly while it is off; no other code.
pub proof fn lemma_row_conditions(mode: usize, sync_on: bool)
    ensures
        cond_matches_spec(0, mode, sync_on),
        cond_matches_spec(1, mode, sync_on) == (mode == 0),
        cond_matches_spec(2, mode, sync_on) == (mode == 1),
        cond_matches_spec(3, mode, sync_on) == (mode == 2),
        cond_matches_spec(4, mode, sync_on) == (mode == 3),
        cond_matches_spec(5, mode, sync_on) == sync_on,
        cond_matches_spec(6, mode, sync_on) == !sync_on,
        forall|c: u8| c > 6 ==> !#[trigger] cond_matches_spec(c, mode, sync_on),
{
}

/// Whether a parameter row shows based on mode / spawn-sync conditions.
pub fn cond_matches(cond: u8, mode: usize, sync_on: bool) -> (r: bool)
    requires
        1 <= cond <= 4 ==> mode < usize::MAX,
    ensures
        r == cond_matches_spec(cond, mode, sync_on),
{
    match cond {
        0 => true,
        1..=4 => cond as usize == mode + 1,
        5 => sync_on,
        6 => !sync_on,
        _ => false,
    }
}

/// Number of rows whose condition code shows them.
pub open spec fn visible_rows_spec(conds: Seq<u8>, mode: usize, sync_on: bool) -> nat
    decreases conds.len(),
{
    if conds.len() == 0 {
        0
    } else {
        visible_rows_spec(conds.drop_last(), mode, sync_on) + if cond_matches_spec(
            conds.last(),
            mode,
            sync_on,
        ) {
            1nat
        } else {
            0nat
        }
    }
}

/// Counting visible rows is additive over the rows of a page: the rows of
/// `a` followed by the rows of `b` show `visible(a) + visible(b)` rows, and
/// a single row counts one exactly when its condition code shows it.
pub proof fn lemma_visible_rows_count(a: Seq<u8>, b: Seq<u8>, c: u8, mode: usize, sync_on: bool)
    ensures
        visible_rows_spec(a + b, mode, sync_on) == visible_rows_spec(a, mode, sync_on)
            + visible_rows_spec(b, mode, sync_on),
        visible_rows_spec(seq![c], mode, sync_on) == (if cond_matches_spec(c, mode, sync_on) {
            1nat
        } else {
            0nat
        }),
        visible_rows_spec(a, mode, sync_on) <= a.len(),
    decreases b.len(),
{
    let one = seq![c];
    assert(one.drop_last() =~= Seq::<u8>::empty());
    assert(one.last() == c);
    assert(visible_rows_spec(one.drop_last(), mode, sync_on) == 0);
    if b.len() == 0 {
        assert(a + b =~= a);
    } else {
        lemma_visible_rows_count(a, b.drop_last(), c, mode, sync_on);
        let ab = a + b;
        assert(ab.drop_last() =~= a + b.drop_last());
        assert(ab.last() == b.last());
        assert(visible_rows_spec(ab, mode, sync_on) == visible_rows_spec(ab.drop_last(), mode, sync_on)
            + (if cond_matches_spec(ab.last(), mode, sync_on) { 1nat } else { 0nat }));
    }
    lemma_visible_rows_at_most_len(a, mode, sync_on);
}

proof fn lemma_visible_rows_at_most_len(a: Seq<u8>, mode: usize, sync_on: bool)
    ensures
        visible_rows_spec(a, mode, sync_on) <= a.len(),
    decreases a.len(),
{
    if a.len() > 0 {
        lemma_visible_rows_at_most_len(a.drop_last(), mode, sync_on);
    }
}

/// Number of rows of a panel page that show, given the condition code of
/// each row (the page's height follows it).
pub fn visible_rows(conds: &[u8], mode: usize, sync_on: bool) -> (r: usize)
    requires
        forall|k: int| 0 <= k < conds@.len() && 1 <= #[trigger] conds@[k] <= 4 ==> mode < usize::MAX,
    ensures
        r == visible_rows_spec(conds@, mode, sync_on),
{
    let mut count: usize = 0;
    let mut k: usize = 0;
    while k < conds.len()
        invariant
            k <= conds@.len(),
            forall|q: int| 0 <= q < conds@.len() && 1 <= #[trigger] conds@[q] <= 4 ==> mode < usize::MAX,
            count == visible_rows_spec(conds@.take(k as int), mode, sync_on),
            count <= k,
        decreases conds.len() - k,
    {
        assert(conds@.take(k as int) =~= conds@.take((k + 1) as int).drop_last());
        if cond_matches(conds[k], mode, sync_on) {
            count = count + 1;
        }
        k = k + 1;
    }
    assert(conds@.take(k as int) =~= conds@);
    count
}

/// Human names for integer parameters (falls back to numeric 0..n).
pub open spec fn discrete_options_spec(id: Seq<char>) -> Seq<Seq<char>> {
    if id == "position_mode"@ {
        seq!["Fixed"@, "LFO"@, "Walk"@, "Peak"@]
    } else {
        seq!["0"@, "1"@, "2"@, "3"@, "4"@, "5"@, "6"@, "7"@]
    }
}

/// Human names for the options of an integer parameter.
pub fn discrete_options(id: &str) -> (r: &'static [&'static str])
    ensures
        r@.map_values(|s: &str| s@) == discrete_options_spec(id@),
{
    let o = id.to_owned();
    let r: &'static [&'static str] = if is_id(&o, "position_mode") {
        &["Fixed", "LFO", "Walk", "Peak"]
    } else {
        &["0", "1", "2", "3", "4", "5", "6", "7"]
    };
    assert(r@.map_values(|s: &str| s@) =~= discrete_options_spec(id@));
    r
}

/// Clamps a page index to the pages a panel has.
pub fn clamp_page(page: usize, page_count: usize) -> (r: usize)
    ensures
        r == (if page_count == 0 { 0 } else if page < page_count { page as int } else { page_count - 1 }),
{
    let last = if page_count == 0 { 0 } else { page_count - 1 };
    if page < last { page } else { last }
}

/// The slot numbers `0, 1, .., n - 1`.
pub open spec fn slot_numbers(n: nat) -> Seq<usize> {
    Seq::new(n, |i: int| i as usize)
}

/// Fisher-Yates shuffle of `order` driven by a SplitMix64 generator in
/// state `state`: swaps position `i` with a drawn position `j <= i`, for
/// `i` from `top` down to 1.
pub open spec fn shuffle_spec(order: Seq<usize>, state: u64, top: int) -> Seq<usize>
    decreases top,
{
    if top < 1 {
        order
    } else {
        let st = splitmix_advance(state);
        let j = (splitmix_mix(st) as int) % (top + 1);
        shuffle_spec(order.update(top, order[j]).update(j, order[top]), st, top - 1)
    }
}

/// The fixed, shuffled lighting order of the sigil dots.
pub open spec fn slot_order_spec() -> Seq<usize> {
    shuffle_spec(
        slot_numbers((RINGS * DOTS_PER_RING) as nat),
        SLOT_ORDER_SEED,
        (RINGS * DOTS_PER_RING - 1) as int,
    )
}

/// Slot numbers 0..RINGS*DOTS_PER_RING in a fixed, shuffled order (lighting
/// appears scattered across every ring rather than sequential): a
/// permutation of those numbers.
pub fn shuffled_slots() -> (r: Vec<usize>)
    ensures
        r@ == slot_order_spec(),
        r@.len() == RINGS * DOTS_PER_RING,
        forall|k: int| 0 <= k < r@.len() ==> (#[trigger] r@[k]) < RINGS * DOTS_PER_RING,
        r@.no_duplicates(),
{
    let n: usize = RINGS * DOTS_PER_RING;
    let mut order: Vec<usize> = Vec::with_capacity(n);
    let mut k: usize = 0;
    while k < n
        invariant
            n == RINGS * DOTS_PER_RING,
            k <= n,
            order@ == slot_numbers(k as nat),
        decreases n - k,
    {
        order.push(k);
        assert(order@ =~= slot_numbers((k + 1) as nat));
        k = k + 1;
    }
    let mut rng = SplitMix64::new(SLOT_ORDER_SEED);
    let mut i: usize = n - 1;
    while i >= 1
        invariant
            n == RINGS * DOTS_PER_RING,
            i < n,
            order@.len() == n,
            shuffle_spec(order@, rng@, i as int) == slot_order_spec(),
            forall|q: int| 0 <= q < n ==> (#[trigger] order@[q]) < n,
            order@.no_duplicates(),
        decreases i,
    {
        let bound: u64 = i as u64 + 1;
        let x = rng.next_u64();
        let j = (x % bound) as usize;
        let ghost before = order@;
        let a = order[i];
        let b = order[j];
        order[i] = b;
        order[j] = a;
        proof {
            assert(order@ == before.update(i as int, before[j as int]).update(j as int, before[i as int]));
            assert forall|p: int, q: int| 0 <= p < q < n implies order@[p] != order@[q] by {
                let op = if p == i as int { j as int } else if p == j as int { i as int } else { p };
                let oq = if q == i as int { j as int } else if q == j as int { i as int } else { q };
                assert(order@[p] == before[op]);
                assert(order@[q] == before[oq]);
                assert(op != oq);
            }
            assert forall|q: int| 0 <= q < n implies (#[trigger] order@[q]) < n by {
                let oq = if q == i as int { j as int } else if q == j as int { i as int } else { q };
                assert(order@[q] == before[oq]);
            }
        }
        i = i - 1;
    }
    order
}

/// The sigil dot `(ring, slot)` that the `next_dot`-th spawn event lights,
/// following the lighting order `slot_order`.
pub open spec fn dot_for(slot_order: Seq<usize>, next_dot: nat) -> (int, int) {
    let dot_idx = slot_order[(next_dot % slot_order.len()) as int] as int;
    (dot_idx % (RINGS as int), (dot_idx / (RINGS as int)) % (DOTS_PER_RING as int))
}

/// The sigil dot `(ring, slot)` that the `next_dot`-th spawn event lights.
pub fn dot_slot(slot_order: &[usize], next_dot: usize) -> (r: (usize, usize))
    requires
        slot_order@.len() > 0,
    ensures
        (r.0 as int, r.1 as int) == dot_for(slot_order@, next_dot as nat),
        r.0 < RINGS,
        r.1 < DOTS_PER_RING,
{
    let dot_idx = slot_order[next_dot % slot_order.len()];
    (dot_idx % RINGS, (dot_idx / RINGS) % DOTS_PER_RING)
}

/// The lighting order spreads spawns over every dot: any
/// `RINGS * DOTS_PER_RING` consecutive spawn events light pairwise
/// different dots, so no dot is relit before every other dot was lit once.
pub proof fn lemma_consecutive_spawns_light_distinct_dots(slot_order: Seq<usize>, start: nat, a: nat, b: nat)
    requires
        slot_order.len() == RINGS * DOTS_PER_RING,
        slot_order.no_duplicates(),
        forall|k: int| 0 <= k < slot_order.len() ==> (#[trigger] slot_order[k]) < RINGS * DOTS_PER_RING,
        a < b < RINGS * DOTS_PER_RING,
    ensures
        dot_for(slot_order, start + a) != dot_for(slot_order, start + b),
{
    let n = (RINGS * DOTS_PER_RING) as int;
    let ia = ((start + a) as int) % n;
    let ib = ((start + b) as int) % n;
    assert(ia != ib) by {
        vstd::arithmetic::div_mod::lemma_fundamental_div_mod((start + a) as int, n);
        vstd::arithmetic::div_mod::lemma_fundamental_div_mod((start + b) as int, n);
        vstd::arithmetic::div_mod::lemma_mod_bound((start + a) as int, n);
        vstd::arithmetic::div_mod::lemma_mod_bound((start + b) as int, n);
        if ia == ib {
            let qa = ((start + a) as int) / n;
            let qb = ((start + b) as int) / n;
            let d = (b - a) as int;
            assert(d == n * (qb - qa)) by (nonlinear_arith)
                requires
                    (start + a) as int == n * qa + ia,
                    (start + b) as int == n * qb + ib,
                    ia == ib,
                    d == (b - a) as int,
            ;
            assert(false) by (nonlinear_arith)
                requires
                    0 < d < n,
                    d == n * (qb - qa),
            ;
        }
    }
    vstd::arithmetic::div_mod::lemma_mod_bound((start + a) as int, n);
    vstd::arithmetic::div_mod::lemma_mod_bound((start + b) as int, n);
    let da = slot_order[ia] as int;
    let db = slot_order[ib] as int;
    assert(da != db);
    assert(da < 36 && db < 36);
    assert(dot_for(slot_order, start + a) == (da % 3, (da / 3) % 12));
    assert(dot_for(slot_order, start + b) == (db % 3, (db / 3) % 12));
    assert((da % 3, (da / 3) % 12) != (db % 3, (db / 3) % 12)) by (nonlinear_arith)
        requires
            0 <= da < 36,
            0 <= db < 36,
            da != db,
    ;
}

/// The two side panels: at most one is open, each remembers its page.
pub struct PanelNav {
    left_open: bool,
    right_open: bool,
    left_page: usize,
    right_page: usize,
}

impl PanelNav {
    /// Whether the left panel is open.
    pub closed spec fn left(&self) -> bool {
        self.left_open
    }

    /// Whether the right panel is open.
    pub closed spec fn right(&self) -> bool {
        self.right_open
    }

    /// Current page of side `side` (0 = left, otherwise right).
    pub closed spec fn page_of(&self, side: usize) -> usize {
        if side == 0 { self.left_page } else { self.right_page }
    }

    /// The panels are mutually exclusive.
    pub open spec fn wf(&self) -> bool {
        !(self.left() && self.right())
    }

    /// Both panels closed, both on their first page.
    pub fn new() -> (r: Self)
        ensures
            r.wf(),
            !r.left(),
            !r.right(),
            r.page_of(0) == 0,
            r.page_of(1) == 0,
    {
        PanelNav { left_open: false, right_open: false, left_page: 0, right_page: 0 }
    }

    /// Clicking the left half: toggles the left panel and closes the right.
    pub fn toggle_left(&mut self)
        ensures
            final(self).wf(),
            final(self).left() == !old(self).left(),
            !final(self).right(),
            forall|side: usize| final(self).page_of(side) == old(self).page_of(side),
    {
        self.left_open = !self.left_open;
        self.right_open = false;
    }

    /// Clicking the right half: toggles the right panel and closes the left.
    pub fn toggle_right(&mut self)
        ensures
            final(self).wf(),
            final(self).right() == !old(self).right(),
            !final(self).left(),
            forall|side: usize| final(self).page_of(side) == old(self).page_of(side),
    {
        self.right_open = !self.right_open;
        self.left_open = false;
    }

    /// Shows page `page` on side `side`; returns true when the page changed
    /// (the content crossfade restarts then).
    pub fn select_page(&mut self, side: usize, page: usize) -> (changed: bool)
        ensures
            changed == (old(self).page_of(side) != page),
            final(self).page_of(side) == page,
            forall|other: usize| (other == 0) != (side == 0) ==> final(self).page_of(other) == old(self).page_of(other),
            final(self).left() == old(self).left(),
            final(self).right() == old(self).right(),
    {
        if side == 0 {
            if self.left_page != page {
                self.left_page = page;
                true
            } else {
                false
            }
        } else {
            if self.right_page != page {
                self.right_page = page;
                true
            } else {
                false
            }
        }
    }

    /// Whether the left panel is open.
    pub fn left_open(&self) -> (r: bool)
        ensures
            r == self.left(),
    {
        self.left_open
    }

    /// Whether the right panel is open.
    pub fn right_open(&self) -> (r: bool)
        ensures
            r == self.right(),
    {
        self.right_open
    }

    /// Current page of side `side` (0 = left, otherwise right).
    pub fn page(&self, side: usize) -> (r: usize)
        ensures
            r == self.page_of(side),
    {
        if side == 0 { self.left_page } else { self.right_page }
    }
}

} // verus!
