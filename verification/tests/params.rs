use tuisynth::control::{braille_bit, key_to_note, AppMode, InputMode};
use tuisynth::drums::DrumKind;
use tuisynth::effects::{BiquadFilter, Delay, Distortion, FilterMode, Reverb, Sidechain};
use tuisynth::save::{apply_save, control_from_save, snapshot};
use tuisynth::scale::{Scale, ScaleQuantizer};
use tuisynth::synth::{note_name, FxRouting, Synth, WaveType};

const SR: u32 = 44100;

#[test]
fn wave_type_cycles_through_all_four() {
    assert_eq!(WaveType::Sine.next(), WaveType::Square);
    assert_eq!(WaveType::Square.next(), WaveType::Sawtooth);
    assert_eq!(WaveType::Sawtooth.next(), WaveType::Triangle);
    assert_eq!(WaveType::Triangle.next(), WaveType::Sine);
    assert_eq!(WaveType::Sawtooth.name(), "Sawtooth");
}

#[test]
fn filter_mode_next_and_prev_are_inverse() {
    for m in [FilterMode::LowPass, FilterMode::HighPass, FilterMode::BandPass] {
        assert_eq!(m.next().prev(), m);
        assert_eq!(m.prev().next(), m);
    }
    assert_eq!(FilterMode::LowPass.name(), "LP");
    assert_eq!(FilterMode::HighPass.name(), "HP");
    assert_eq!(FilterMode::BandPass.name(), "BP");
}

#[test]
fn drum_kind_names_and_indices() {
    assert_eq!(DrumKind::Kick.name(), "Kick ");
    assert_eq!(DrumKind::HighTom.name(), "H.Tom");
    for i in 0..8u8 {
        assert_eq!(DrumKind::from_index(i).index(), i);
    }
    assert_eq!(DrumKind::from_index(200), DrumKind::Kick);
}

#[test]
fn note_names_follow_pitch_class_and_octave() {
    assert_eq!(note_name(69), "A4");
    assert_eq!(note_name(60), "C4");
    assert_eq!(note_name(0), "C-1");
    assert_eq!(note_name(127), "G9");
    assert_eq!(note_name(61), "C#4");
}

#[test]
fn key_map_covers_both_rows() {
    assert_eq!(key_to_note('z', 4), Some(60));
    assert_eq!(key_to_note('s', 4), Some(61));
    assert_eq!(key_to_note('q', 4), Some(72));
    assert_eq!(key_to_note('p', 4), Some(88));
    assert_eq!(key_to_note('m', 0), Some(23));
    assert_eq!(key_to_note('!', 4), None);
    // The top of the upper row falls off the note range at octave 8.
    assert_eq!(key_to_note('p', 8), None);
    assert_eq!(key_to_note('z', 8), Some(108));
}

#[test]
fn braille_bits_cover_the_cell() {
    let bits: Vec<u8> = (0..2)
        .flat_map(|c| (0..4).map(move |r| braille_bit(c, r)))
        .collect();
    assert_eq!(bits, vec![0x01, 0x02, 0x04, 0x40, 0x08, 0x10, 0x20, 0x80]);
    assert_eq!(braille_bit(2, 0), 0);
    // All eight dots together form a full cell.
    assert_eq!(bits.iter().fold(0u8, |a, b| a | b), 0xFF);
}

#[test]
fn app_mode_cycles_all_panels() {
    let mut m = AppMode::Play;
    for _ in 0..5 {
        m = m.next();
    }
    assert_eq!(m, AppMode::Play);
    assert_eq!(AppMode::Drums.next(), AppMode::Effects);
    assert_ne!(InputMode::Save, InputMode::Load);
}

#[test]
fn scale_quantizer_snaps_down_to_scale() {
    let mut q = ScaleQuantizer::new();
    assert_eq!(q.quantize(61), 61); // Off passes everything
    q.scale = Scale::Major;
    assert_eq!(q.quantize(60), 60); // C is in C major
    assert_eq!(q.quantize(61), 60); // C# snaps down to C
    assert_eq!(q.quantize(66), 65); // F# snaps down to F
    q.root = 2; // D major
    assert_eq!(q.quantize(61), 61); // C# is the seventh of D major
    assert_eq!(q.quantize(60), 59);
}

#[test]
fn scale_cycle_and_index_round_trip() {
    let mut s = Scale::Off;
    for _ in 0..5 {
        s = s.next();
    }
    assert_eq!(s, Scale::Off);
    for i in 0..5u8 {
        assert_eq!(Scale::from_index(i).index(), i);
    }
    assert_eq!(Scale::from_index(99), Scale::Off);
    assert_eq!(Scale::Blues.name(), "Blues");
    let mut q = ScaleQuantizer::new();
    q.root = 11;
    q.cycle_root();
    assert_eq!(q.root, 0);
    assert_eq!(q.root_name(), "C");
}

#[test]
fn reverb_parameters_clamp() {
    let mut r = Reverb::new();
    assert!(!r.enabled);
    r.toggle_enabled();
    assert!(r.enabled);
    for _ in 0..30 {
        r.adjust(0, true);
    }
    assert_eq!(r.room_size_m, 1000);
    for _ in 0..30 {
        r.adjust(1, false);
    }
    assert_eq!(r.damping_m, 0);
    r.adjust(2, true);
    assert_eq!(r.mix_m, 350);
}

#[test]
fn delay_parameters_clamp() {
    let mut d = Delay::new();
    for _ in 0..50 {
        d.adjust(0, true);
    }
    assert_eq!(d.time_ms, 1000);
    for _ in 0..50 {
        d.adjust(0, false);
    }
    assert_eq!(d.time_ms, 10);
    for _ in 0..30 {
        d.adjust(1, true);
    }
    assert_eq!(d.feedback_m, 950);
}

#[test]
fn distortion_drive_ranges_one_to_ten() {
    let mut d = Distortion::new();
    assert_eq!(d.drive_m, 3000);
    for _ in 0..20 {
        d.adjust(0, true);
    }
    assert_eq!(d.drive_m, 10_000);
    for _ in 0..20 {
        d.adjust(0, false);
    }
    assert_eq!(d.drive_m, 1000);
}

#[test]
fn sidechain_parameters_and_duck_flags() {
    let mut s = Sidechain::new();
    s.toggle_duck_s1();
    assert!(s.duck_s1 && !s.duck_s2);
    s.toggle_duck_s2();
    s.toggle_duck_s1();
    assert!(!s.duck_s1 && s.duck_s2);
    for _ in 0..30 {
        s.adjust(1, true);
    }
    assert_eq!(s.release_ms, 500);
    for _ in 0..30 {
        s.adjust(1, false);
    }
    assert_eq!(s.release_ms, 10);
}

#[test]
fn biquad_cutoff_moves_by_semitones_and_clamps() {
    let mut f = BiquadFilter::new();
    assert_eq!(f.cutoff_hz, 5000);
    f.adjust(1, true);
    assert_eq!(f.cutoff_hz, 5000 * 10_595 / 10_000);
    for _ in 0..100 {
        f.adjust(1, true);
    }
    assert_eq!(f.cutoff_hz, 18_000);
    for _ in 0..200 {
        f.adjust(1, false);
    }
    assert_eq!(f.cutoff_hz, 80);
    f.adjust(0, true);
    assert_eq!(f.mode, FilterMode::HighPass);
    f.adjust(0, false);
    assert_eq!(f.mode, FilterMode::LowPass);
    for _ in 0..200 {
        f.adjust(2, true);
    }
    assert_eq!(f.q_m, 10_000);
}

#[test]
fn routing_sends_step_and_toggle() {
    let mut r = FxRouting::new();
    assert_eq!(r.send_level(0, 0), 0);
    r.adjust_send(0, 0, true);
    assert_eq!(r.send_level(0, 0), 50);
    r.toggle_send(2, 1);
    assert_eq!(r.send_level(2, 1), 1000);
    r.toggle_send(2, 1);
    assert_eq!(r.send_level(2, 1), 0);
    r.adjust_send(9, 9, true); // out of range: no-op
    for _ in 0..30 {
        r.adjust_send(1, 2, true);
    }
    assert_eq!(r.send_level(1, 2), 1000);
    assert_eq!(r.send_level(0, 0), 50);
}

#[test]
fn save_and_load_round_trips_every_persisted_field() {
    let mut s = Synth::new(SR);
    // Make the state distinctive.
    for _ in 0..4 {
        s.bpm_up();
    }
    s.wave_type = s.wave_type.next();
    s.wave_type2 = s.wave_type2.next().next();
    s.volume_step(true);
    s.volume2_step(false);
    s.sequencer.set_step(0, 60);
    s.sequencer.set_step(5, 67);
    s.sequencer2.cycle_num_steps();
    s.sequencer2.set_step(20, 72);
    s.drum_machine.euclidean_fill(0, 4);
    s.drum_machine.toggle_step(3, 2);
    s.drum_machine.toggle_mute(5);
    s.drum_machine.track_volume_down(1);
    s.drum_machine.swing_up();
    s.reverb.toggle_enabled();
    s.reverb.adjust(0, true);
    s.delay.adjust(0, false);
    s.distortion.adjust(1, true);
    s.sidechain.toggle_enabled();
    s.sidechain.toggle_duck_s1();
    s.filter1.toggle_enabled();
    s.filter1.adjust(0, true);
    s.filter1.adjust(1, true);
    s.filter2.adjust(2, false);
    s.fx_routing.adjust_send(0, 0, true);
    s.fx_routing.toggle_send(2, 2);

    let sf = snapshot(&s, 5, Scale::Minor, 7);

    let mut t = Synth::new(SR);
    apply_save(&mut t, &sf);
    let (oct, scale, root) = control_from_save(&sf);

    assert_eq!(oct, 5);
    assert_eq!(scale, Scale::Minor);
    assert_eq!(root, 7);
    assert_eq!(t.bpm, s.bpm);
    assert_eq!(t.wave_type, s.wave_type);
    assert_eq!(t.wave_type2, s.wave_type2);
    assert_eq!(t.volume_m, s.volume_m);
    assert_eq!(t.volume2_m, s.volume2_m);
    assert_eq!(t.sequencer.num_steps, s.sequencer.num_steps);
    assert_eq!(t.sequencer.steps, s.sequencer.steps);
    assert_eq!(t.sequencer2.num_steps, s.sequencer2.num_steps);
    assert_eq!(t.sequencer2.steps, s.sequencer2.steps);
    assert_eq!(t.drum_machine.num_steps, s.drum_machine.num_steps);
    assert_eq!(t.drum_machine.swing_m, s.drum_machine.swing_m);
    for i in 0..8 {
        assert_eq!(t.drum_machine.tracks[i].kind, s.drum_machine.tracks[i].kind);
        assert_eq!(t.drum_machine.tracks[i].steps, s.drum_machine.tracks[i].steps);
        assert_eq!(t.drum_machine.tracks[i].muted, s.drum_machine.tracks[i].muted);
        assert_eq!(t.drum_machine.tracks[i].volume_m, s.drum_machine.tracks[i].volume_m);
    }
    assert_eq!(t.reverb.enabled, s.reverb.enabled);
    assert_eq!(t.reverb.room_size_m, s.reverb.room_size_m);
    assert_eq!(t.reverb.damping_m, s.reverb.damping_m);
    assert_eq!(t.reverb.mix_m, s.reverb.mix_m);
    assert_eq!(t.delay.enabled, s.delay.enabled);
    assert_eq!(t.delay.time_ms, s.delay.time_ms);
    assert_eq!(t.delay.feedback_m, s.delay.feedback_m);
    assert_eq!(t.delay.mix_m, s.delay.mix_m);
    assert_eq!(t.distortion.enabled, s.distortion.enabled);
    assert_eq!(t.distortion.drive_m, s.distortion.drive_m);
    assert_eq!(t.distortion.tone_m, s.distortion.tone_m);
    assert_eq!(t.distortion.level_m, s.distortion.level_m);
    assert_eq!(t.sidechain.enabled, s.sidechain.enabled);
    assert_eq!(t.sidechain.depth_m, s.sidechain.depth_m);
    assert_eq!(t.sidechain.release_ms, s.sidechain.release_ms);
    assert_eq!(t.sidechain.duck_s1, s.sidechain.duck_s1);
    assert_eq!(t.sidechain.duck_s2, s.sidechain.duck_s2);
    assert_eq!(t.filter1.enabled, s.filter1.enabled);
    assert_eq!(t.filter1.mode, s.filter1.mode);
    assert_eq!(t.filter1.cutoff_hz, s.filter1.cutoff_hz);
    assert_eq!(t.filter1.q_m, s.filter1.q_m);
    assert_eq!(t.filter2.mode, s.filter2.mode);
    assert_eq!(t.filter2.cutoff_hz, s.filter2.cutoff_hz);
    assert_eq!(t.filter2.q_m, s.filter2.q_m);
    for bus in 0..3 {
        for fx in 0..3 {
            assert_eq!(t.fx_routing.send_level(bus, fx), s.fx_routing.send_level(bus, fx));
        }
    }
    // A load never touches live playback state.
    assert_eq!(t.master_clock, 0);
    assert!(t.active_notes().is_empty());
}

#[test]
fn loading_clamps_out_of_range_values() {
    let mut s = Synth::new(SR);
    let mut sf = snapshot(&s, 4, Scale::Off, 0);
    sf.bpm = 9999;
    sf.volume_m = 5000;
    sf.wave1 = 77;
    sf.seq1.num_steps = 100;
    sf.drums.swing_m = 4000;
    sf.drums.tracks[0].steps[0] = 255;
    sf.drums.tracks[0].volume_m = 2000;
    sf.delay.time_ms = 0;
    sf.distortion.drive_m = 0;
    sf.filter1.cutoff_hz = 1;
    sf.filter1.q_m = 999_999;
    sf.routing.dr_dist_m = 1234;
    sf.base_octave = -5;
    sf.scale_root = 200;

    apply_save(&mut s, &sf);
    let (oct, _, root) = control_from_save(&sf);

    assert_eq!(s.bpm, 300);
    assert_eq!(s.volume_m, 1000);
    assert_eq!(s.wave_type, WaveType::Sine);
    assert_eq!(s.sequencer.num_steps, 32);
    assert_eq!(s.sequencer.steps.len(), 32);
    assert_eq!(s.drum_machine.swing_m, 500);
    assert_eq!(s.drum_machine.tracks[0].steps[0], 100);
    assert_eq!(s.drum_machine.tracks[0].volume_m, 1000);
    assert_eq!(s.delay.time_ms, 10);
    assert_eq!(s.distortion.drive_m, 1000);
    assert_eq!(s.filter1.cutoff_hz, 80);
    assert_eq!(s.filter1.q_m, 10_000);
    assert_eq!(s.fx_routing.dr_dist_m, 1000);
    assert_eq!(oct, 0);
    assert_eq!(root, 200 % 12);
}
