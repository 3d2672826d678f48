use tuisynth::drums::{xorshift32, DrumKind, DrumMachine};
use tuisynth::sequencer::{samples_per_step, Sequencer};
use tuisynth::synth::{EnvParams, EnvelopeStage, Synth, Voice, LEVEL_ONE};

const SR: u32 = 44100;

#[test]
fn samples_per_step_at_120_bpm_is_5512() {
    assert_eq!(samples_per_step(SR, 120), 5512);
}

#[test]
fn samples_per_step_other_tempos() {
    // 44100 * 60 / (140 * 4) = 4725 exactly.
    assert_eq!(samples_per_step(SR, 140), 4725);
    // 44100 * 60 / (60 * 4) = 11025 exactly.
    assert_eq!(samples_per_step(SR, 60), 11025);
    assert!(samples_per_step(1, 1000) >= 1);
}

#[test]
fn swing_offset_quarter_of_5512_is_1378() {
    assert_eq!(tuisynth::drums::swing_offset(250, 5512), 1378);
    assert_eq!(tuisynth::drums::swing_offset(0, 5512), 0);
}

#[test]
fn sequencer_fires_step_zero_at_clock_zero() {
    let mut seq = Sequencer::new(SR);
    seq.set_step(0, 60);
    seq.toggle_play();
    assert!(seq.playing);
    let ev = seq.tick(120, 0).expect("boundary at clock 0");
    assert_eq!(ev.note_on, Some(60));
    assert_eq!(ev.note_off, None);
    assert_eq!(seq.current_step, 0);
}

#[test]
fn sequencer_releases_previous_note_at_next_boundary() {
    let mut seq = Sequencer::new(SR);
    seq.set_step(0, 60);
    seq.toggle_play();
    seq.tick(120, 0);
    // Between boundaries nothing fires.
    for clock in 1..5512u64 {
        assert!(seq.tick(120, clock).is_none());
    }
    // Step 1 fires at clock 5512 and releases step 0's note.
    let ev = seq.tick(120, 5512).expect("boundary at one step");
    assert_eq!(ev.note_off, Some(60));
    assert_eq!(ev.note_on, None);
    assert_eq!(seq.current_step, 1);
}

#[test]
fn sequencer_wraps_to_step_zero_after_sixteen_steps() {
    let mut seq = Sequencer::new(SR);
    seq.set_step(0, 60);
    seq.toggle_play();
    let ev = seq.tick(120, 5512 * 16).expect("wrap boundary");
    // Step 15 holds nothing, so nothing is released; step 0 retriggers.
    assert_eq!(ev.note_off, None);
    assert_eq!(ev.note_on, Some(60));
    assert_eq!(seq.current_step, 0);
}

#[test]
fn sequencer_paused_does_nothing() {
    let mut seq = Sequencer::new(SR);
    seq.set_step(0, 60);
    assert!(seq.tick(120, 0).is_none());
    assert_eq!(seq.current_step, 0);
}

#[test]
fn sequencer_toggle_play_returns_held_note_on_pause() {
    let mut seq = Sequencer::new(SR);
    seq.set_step(0, 64);
    assert_eq!(seq.toggle_play(), None);
    seq.tick(120, 0);
    assert_eq!(seq.toggle_play(), Some(64));
    assert!(!seq.playing);
}

#[test]
fn sequencer_stop_rewinds_cursor() {
    let mut seq = Sequencer::new(SR);
    seq.set_step(3, 70);
    seq.toggle_play();
    seq.tick(120, 5512 * 3);
    assert_eq!(seq.current_step, 3);
    assert_eq!(seq.stop(), Some(70));
    assert_eq!(seq.current_step, 0);
    assert!(!seq.playing);
}

#[test]
fn sequencer_length_cycles_and_pads_empty() {
    let mut seq = Sequencer::new(SR);
    seq.set_step(15, 55);
    assert_eq!(seq.num_steps, 16);
    seq.cycle_num_steps();
    assert_eq!(seq.num_steps, 24);
    assert_eq!(seq.steps[15], Some(55));
    assert_eq!(seq.steps[23], None);
    seq.cycle_num_steps();
    assert_eq!(seq.num_steps, 32);
    seq.cycle_num_steps();
    assert_eq!(seq.num_steps, 8);
    seq.cycle_num_steps();
    assert_eq!(seq.num_steps, 16);
    assert_eq!(seq.steps.len(), 16);
    // The note at step 15 was cut by the shrink to 8 steps.
    assert_eq!(seq.steps[15], None);
}

#[test]
fn sequencer_set_and_clear_out_of_range_are_noops() {
    let mut seq = Sequencer::new(SR);
    seq.set_step(99, 60);
    seq.clear_step(99);
    assert!(seq.steps.iter().all(|s| s.is_none()));
}

#[test]
fn euclidean_four_over_sixteen_is_evenly_spaced() {
    let mut dm = DrumMachine::new(SR);
    dm.euclidean_fill(0, 4);
    let steps = &dm.tracks[0].steps;
    let active: Vec<usize> = (0..16).filter(|&i| steps[i] > 0).collect();
    assert_eq!(active, vec![3, 7, 11, 15]);
    assert!(steps.iter().all(|&p| p == 0 || p == 100));
}

#[test]
fn euclidean_full_and_empty() {
    let mut dm = DrumMachine::new(SR);
    dm.euclidean_fill(1, 16);
    assert!(dm.tracks[1].steps.iter().all(|&p| p == 100));
    dm.euclidean_fill(1, 0);
    assert!(dm.tracks[1].steps.iter().all(|&p| p == 0));
    // A pulse count over the length is capped at the length.
    dm.euclidean_fill(1, 99);
    assert!(dm.tracks[1].steps.iter().all(|&p| p == 100));
}

#[test]
fn euclidean_three_over_eight() {
    let mut dm = DrumMachine::new(SR);
    dm.cycle_num_steps(); // 24
    dm.cycle_num_steps(); // 32
    dm.cycle_num_steps(); // 8
    assert_eq!(dm.num_steps, 8);
    dm.euclidean_fill(0, 3);
    let active: Vec<usize> = (0..8).filter(|&i| dm.tracks[0].steps[i] > 0).collect();
    assert_eq!(active.len(), 3);
    // The bucket algorithm: overflow where (i+1)*3 crosses a multiple of 8.
    assert_eq!(active, vec![2, 5, 7]);
}

#[test]
fn drum_tick_fires_full_probability_step_on_boundary() {
    let mut dm = DrumMachine::new(SR);
    dm.toggle_step(0, 0); // kick at step 0, probability 100
    dm.toggle_play();
    dm.tick(120, 0);
    assert_eq!(dm.voices.len(), 1);
    assert_eq!(dm.voices[0].kind, DrumKind::Kick);
    assert!(dm.kick_triggered);
    // One sample later nothing new fires and the voice has advanced.
    dm.tick(120, 1);
    assert_eq!(dm.voices.len(), 1);
    assert_eq!(dm.voices[0].sample_pos, 2);
    assert!(!dm.kick_triggered);
}

#[test]
fn drum_tick_respects_swing_on_odd_steps() {
    let mut dm = DrumMachine::new(SR);
    dm.toggle_step(1, 1); // snare on step 1
    for _ in 0..5 {
        dm.swing_up();
    }
    assert_eq!(dm.swing_m, 250);
    dm.toggle_play();
    // The bare boundary of odd step 1 does not fire...
    dm.tick(120, 5512);
    assert_eq!(dm.voices.len(), 0);
    // ...the swing-delayed instant does: 5512 + round(0.25 * 5512) = 6890.
    dm.tick(120, 5512 + 1378);
    assert_eq!(dm.voices.len(), 1);
    assert_eq!(dm.voices[0].kind, DrumKind::Snare);
    assert!(!dm.kick_triggered);
}

#[test]
fn drum_probability_roll_is_deterministic() {
    // The probability stream is its own xorshift; replay it to predict.
    let mut dm = DrumMachine::new(SR);
    dm.toggle_step(1, 0);
    dm.step_prob_down(1, 0); // 75
    let roll = (xorshift32(dm.prob_seed) % 100) as u8;
    dm.toggle_play();
    dm.tick(120, 0);
    if roll < 75 {
        assert_eq!(dm.voices.len(), 1);
    } else {
        assert_eq!(dm.voices.len(), 0);
    }
    // Either way the roll consumed exactly one step of the stream.
    assert_eq!(dm.prob_seed, xorshift32(0xDEAD_BEEF));
    // The trigger-seed stream is untouched by a skipped roll.
    if roll >= 75 {
        assert_eq!(dm.seed, 0xBEEF_CAFE);
    }
}

#[test]
fn muted_track_never_fires() {
    let mut dm = DrumMachine::new(SR);
    dm.toggle_step(0, 0);
    dm.toggle_mute(0);
    dm.toggle_play();
    dm.tick(120, 0);
    assert_eq!(dm.voices.len(), 0);
    assert!(!dm.kick_triggered);
}

#[test]
fn closed_hat_chokes_open_hat() {
    let mut dm = DrumMachine::new(SR);
    dm.trigger_now(3); // open hat
    assert_eq!(dm.voices.len(), 1);
    dm.trigger_now(2); // closed hat
    assert_eq!(dm.voices.len(), 1);
    assert_eq!(dm.voices[0].kind, DrumKind::ClosedHat);
}

#[test]
fn trigger_now_is_polyphonic_and_skips_muted() {
    let mut dm = DrumMachine::new(SR);
    dm.trigger_now(0);
    dm.trigger_now(0);
    dm.trigger_now(1);
    assert_eq!(dm.voices.len(), 3);
    // Distinct seeds make simultaneous hits timbrally distinct.
    assert_ne!(dm.voices[0].noise, dm.voices[1].noise);
    dm.toggle_mute(1);
    dm.trigger_now(1);
    assert_eq!(dm.voices.len(), 3);
    dm.trigger_now(99); // out of range: no-op
    assert_eq!(dm.voices.len(), 3);
}

#[test]
fn stopping_playback_clears_voices() {
    let mut dm = DrumMachine::new(SR);
    dm.toggle_play();
    dm.trigger_now(0);
    assert_eq!(dm.voices.len(), 1);
    dm.toggle_play();
    assert_eq!(dm.voices.len(), 0);
    assert!(!dm.playing);
}

#[test]
fn drum_voice_expires_after_its_duration() {
    let mut dm = DrumMachine::new(SR);
    dm.trigger_now(2); // closed hat: 60 ms = 2646 samples at 44100
    let dur = dm.voices[0].dur_samples;
    assert_eq!(dur, (60 * SR as u64 + 999) / 1000);
    for clock in 0..dur {
        dm.tick(120, clock);
    }
    assert_eq!(dm.voices.len(), 0);
}

#[test]
fn xorshift_matches_reference_and_preserves_nonzero() {
    let mut s: u32 = 0xDEAD_BEEF;
    s ^= s << 13;
    s ^= s >> 17;
    s ^= s << 5;
    assert_eq!(xorshift32(0xDEAD_BEEF), s);
    // An odd seed never reaches zero over a short run.
    let mut x: u32 = 1;
    for _ in 0..1000 {
        x = xorshift32(x);
        assert_ne!(x, 0);
    }
}

#[test]
fn attack_reaches_full_level_within_441_samples() {
    // 10 ms attack at 44100 Hz is 441 samples.
    let p = EnvParams::new();
    let mut v = Voice::new(69);
    let mut reached_at = None;
    for i in 1..=441u32 {
        v.step_envelope(&p, SR);
        if v.level == LEVEL_ONE {
            reached_at = Some(i);
            break;
        }
    }
    assert_eq!(reached_at, Some(441));
    assert_eq!(v.stage, EnvelopeStage::Decay);
}

#[test]
fn release_reaches_exact_zero_within_release_time() {
    let p = EnvParams::new();
    let mut v = Voice::new(60);
    // Run well past attack and decay into sustain.
    for _ in 0..20_000 {
        v.step_envelope(&p, SR);
    }
    assert_eq!(v.stage, EnvelopeStage::Sustain);
    assert_eq!(v.level, 700_000);
    v.release();
    assert_eq!(v.stage, EnvelopeStage::Release);
    assert_eq!(v.release_level, 700_000);
    // 300 ms release at 44100 Hz is 13230 samples.
    let mut off_at = None;
    for i in 1..=13_230u32 {
        v.step_envelope(&p, SR);
        if v.stage == EnvelopeStage::Off {
            off_at = Some(i);
            break;
        }
    }
    assert!(off_at.is_some());
    assert_eq!(v.level, 0);
    // Off is terminal.
    v.step_envelope(&p, SR);
    assert_eq!(v.stage, EnvelopeStage::Off);
    assert_eq!(v.level, 0);
}

#[test]
fn zero_length_stages_jump_immediately() {
    let p = EnvParams { attack_ms: 0, decay_ms: 0, sustain_m: 500, release_ms: 0 };
    let mut v = Voice::new(60);
    v.step_envelope(&p, SR);
    assert_eq!(v.stage, EnvelopeStage::Decay);
    assert_eq!(v.level, LEVEL_ONE);
    v.step_envelope(&p, SR);
    assert_eq!(v.stage, EnvelopeStage::Sustain);
    assert_eq!(v.level, 500_000);
    v.release();
    v.step_envelope(&p, SR);
    assert_eq!(v.stage, EnvelopeStage::Off);
    assert_eq!(v.level, 0);
}

#[test]
fn note_on_then_off_removes_voice_from_active_set() {
    let mut s = Synth::new(SR);
    s.note_on(69);
    assert_eq!(s.active_notes(), vec![69]);
    // Let the envelope rise for a while.
    for _ in 0..1000 {
        s.tick();
    }
    assert_eq!(s.active_notes(), vec![69]);
    s.note_off(69);
    // Within the 300 ms release (13230 samples) the voice reaches Off and is
    // pruned from the bank.
    for _ in 0..13_231 {
        s.tick();
    }
    assert!(s.active_notes().is_empty());
}

#[test]
fn note_off_without_voice_is_a_noop() {
    let mut s = Synth::new(SR);
    s.note_off(42);
    assert!(s.active_notes().is_empty());
    assert_eq!(s.master_clock, 0);
    assert_eq!(s.bpm, 120);
    s.note_on(50);
    s.note_off(42);
    assert_eq!(s.active_notes(), vec![50]);
    assert_eq!(s.voices[0].stage, EnvelopeStage::Attack);
}

#[test]
fn retriggering_a_held_note_replaces_its_voice() {
    let mut s = Synth::new(SR);
    s.note_on(60);
    for _ in 0..500 {
        s.tick();
    }
    let level_before = s.voices[0].level;
    assert!(level_before > 0);
    s.note_on(60);
    assert_eq!(s.active_notes(), vec![60]);
    assert_eq!(s.voices[0].level, 0);
    assert_eq!(s.voices[0].stage, EnvelopeStage::Attack);
}

#[test]
fn engine_tick_applies_sequencer_events() {
    let mut s = Synth::new(SR);
    s.sequencer.set_step(0, 60);
    s.sequencer.toggle_play();
    s.tick();
    assert_eq!(s.master_clock, 1);
    assert_eq!(s.active_notes(), vec![60]);
    // The drum machine cursor follows the same master clock.
    assert_eq!(s.drum_machine.current_step, 0);
}

#[test]
fn engine_bpm_and_volume_clamp() {
    let mut s = Synth::new(SR);
    for _ in 0..100 {
        s.bpm_up();
    }
    assert_eq!(s.bpm, 300);
    for _ in 0..100 {
        s.bpm_down();
    }
    assert_eq!(s.bpm, 30);
    for _ in 0..30 {
        s.volume_step(true);
    }
    assert_eq!(s.volume_m, 1000);
    for _ in 0..30 {
        s.volume2_step(false);
    }
    assert_eq!(s.volume2_m, 0);
}

#[test]
fn drum_volume_and_prob_editing_clamp() {
    let mut dm = DrumMachine::new(SR);
    assert_eq!(dm.tracks[0].volume_m, 850);
    for _ in 0..10 {
        dm.track_volume_up(0);
    }
    assert_eq!(dm.tracks[0].volume_m, 1000);
    for _ in 0..30 {
        dm.track_volume_down(0);
    }
    assert_eq!(dm.tracks[0].volume_m, 0);

    dm.step_prob_up(2, 5);
    assert_eq!(dm.tracks[2].steps[5], 25);
    dm.step_prob_up(2, 5);
    dm.step_prob_up(2, 5);
    dm.step_prob_up(2, 5);
    dm.step_prob_up(2, 5);
    assert_eq!(dm.tracks[2].steps[5], 100);
    dm.step_prob_down(2, 5);
    assert_eq!(dm.tracks[2].steps[5], 75);
    for _ in 0..10 {
        dm.step_prob_down(2, 5);
    }
    assert_eq!(dm.tracks[2].steps[5], 0);

    dm.clear_step(2, 5);
    assert_eq!(dm.tracks[2].steps[5], 0);
    for _ in 0..20 {
        dm.swing_up();
    }
    assert_eq!(dm.swing_m, 500);
    for _ in 0..20 {
        dm.swing_down();
    }
    assert_eq!(dm.swing_m, 0);
}

#[test]
fn drum_pattern_length_cycle_pads_with_zero() {
    let mut dm = DrumMachine::new(SR);
    dm.toggle_step(0, 15);
    dm.cycle_num_steps();
    assert_eq!(dm.num_steps, 24);
    assert_eq!(dm.tracks[0].steps.len(), 24);
    assert_eq!(dm.tracks[0].steps[15], 100);
    assert_eq!(dm.tracks[0].steps[23], 0);
}
