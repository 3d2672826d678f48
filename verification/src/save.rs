//! The persisted snapshot: a flat copy of every setting worth keeping, the
//! clamping rules a loaded snapshot passes through before it may touch the
//! engine, and the law that a saved snapshot survives the round trip
//! unchanged.

use vstd::prelude::*;
use crate::drums::DrumKind;
use crate::drums::DrumMachine;
use crate::effects::BiquadFilter;
use crate::effects::Delay;
use crate::effects::Distortion;
use crate::effects::FilterMode;
use crate::effects::Reverb;
use crate::effects::Sidechain;
use crate::scale::Scale;
use crate::sequencer::Sequencer;
use crate::synth::FxRouting;
use crate::synth::Synth;
use crate::synth::WaveType;

verus! {

// ── Snapshot shape ────────────────────────────────────────────────────────

pub struct SeqSave {
    pub num_steps: usize,
    pub steps: Vec<Option<u8>>,
}

pub struct TrackSave {
    pub kind: u8,
    pub steps: Vec<u8>,
    pub muted: bool,
    pub volume_m: u32,
}

pub struct DrumsSave {
    pub num_steps: usize,
    pub swing_m: u32,
    pub tracks: Vec<TrackSave>,
}

pub struct ReverbSave {
    pub enabled: bool,
    pub room_size_m: u32,
    pub damping_m: u32,
    pub mix_m: u32,
}

pub struct DelaySave {
    pub enabled: bool,
    pub time_ms: u32,
    pub feedback_m: u32,
    pub mix_m: u32,
}

pub struct DistSave {
    pub enabled: bool,
    pub drive_m: u32,
    pub tone_m: u32,
    pub level_m: u32,
}

pub struct SidechainSave {
    pub enabled: bool,
    pub depth_m: u32,
    pub release_ms: u32,
    pub duck_s1: bool,
    pub duck_s2: bool,
}

pub struct FilterSave {
    pub enabled: bool,
    pub mode: u8,
    pub cutoff_hz: u32,
    pub q_m: u32,
}

pub struct RoutingSave {
    pub s1_reverb_m: u32,
    pub s1_delay_m: u32,
    pub s1_dist_m: u32,
    pub s2_reverb_m: u32,
    pub s2_delay_m: u32,
    pub s2_dist_m: u32,
    pub dr_reverb_m: u32,
    pub dr_delay_m: u32,
    pub dr_dist_m: u32,
}

/// Everything the engine persists, as one flat record.
pub struct SaveFile {
    pub bpm: u32,
    pub base_octave: i32,
    pub scale: u8,
    pub scale_root: u8,
    pub wave1: u8,
    pub wave2: u8,
    pub volume_m: u32,
    pub volume2_m: u32,
    pub seq1: SeqSave,
    pub seq2: SeqSave,
    pub drums: DrumsSave,
    pub reverb: ReverbSave,
    pub delay: DelaySave,
    pub distortion: DistSave,
    pub sidechain: SidechainSave,
    pub filter1: FilterSave,
    pub filter2: FilterSave,
    pub routing: RoutingSave,
}

// ── Clamping ──────────────────────────────────────────────────────────────

/// A scalar forced into its documented range.
pub open spec fn clamp_spec(v: u32, lo: u32, hi: u32) -> u32 {
    if v < lo {
        lo
    } else if v > hi {
        hi
    } else {
        v
    }
}

pub fn clamp_u32(v: u32, lo: u32, hi: u32) -> (r: u32)
    requires
        lo <= hi,
    ensures
        r == clamp_spec(v, lo, hi),
        lo <= r <= hi,
{
    if v < lo {
        lo
    } else if v > hi {
        hi
    } else {
        v
    }
}

/// A loaded pattern length forced into 1 to 32 steps.
pub open spec fn clamp_len_spec(n: usize) -> usize {
    if n < 1 {
        1usize
    } else if n > 32 {
        32usize
    } else {
        n
    }
}

pub fn clamp_len(n: usize) -> (r: usize)
    ensures
        r == clamp_len_spec(n),
        1 <= r <= 32,
{
    if n < 1 {
        1
    } else if n > 32 {
        32
    } else {
        n
    }
}

/// A loaded trigger probability forced into 0 to 100.
pub open spec fn clamp_prob_spec(p: u8) -> u8 {
    if p > 100 {
        100u8
    } else {
        p
    }
}

/// A loaded melodic pattern cut or padded (with empty steps) to its length.
pub open spec fn pad_notes_spec(s: Seq<Option<u8>>, n: int) -> Seq<Option<u8>> {
    Seq::new(
        n as nat,
        |i: int|
            if i < s.len() {
                s[i]
            } else {
                None
            },
    )
}

/// A loaded drum pattern cut or padded to its length, every entry clamped.
pub open spec fn pad_probs_spec(s: Seq<u8>, n: int) -> Seq<u8> {
    Seq::new(
        n as nat,
        |i: int|
            if i < s.len() {
                clamp_prob_spec(s[i])
            } else {
                0u8
            },
    )
}

// ── Validity ──────────────────────────────────────────────────────────────

impl SaveFile {
    /// Every field already sits in its documented range (what `snapshot`
    /// guarantees, and exactly the domain on which loading changes nothing).
    pub open spec fn valid(self) -> bool {
        &&& 30 <= self.bpm <= 300
        &&& 0 <= self.base_octave <= 8
        &&& self.scale <= 4
        &&& self.scale_root < 12
        &&& self.wave1 <= 3
        &&& self.wave2 <= 3
        &&& self.volume_m <= 1000
        &&& self.volume2_m <= 1000
        &&& 1 <= self.seq1.num_steps <= 32
        &&& self.seq1.steps@.len() == self.seq1.num_steps
        &&& 1 <= self.seq2.num_steps <= 32
        &&& self.seq2.steps@.len() == self.seq2.num_steps
        &&& 1 <= self.drums.num_steps <= 32
        &&& self.drums.swing_m <= 500
        &&& self.drums.tracks@.len() == 8
        &&& forall|i: int|
            0 <= i < 8 ==> (#[trigger] self.drums.tracks@[i]).steps@.len()
                == self.drums.num_steps
        &&& forall|i: int, s: int|
            0 <= i < 8 && 0 <= s < self.drums.num_steps
                ==> #[trigger] self.drums.tracks@[i].steps@[s] <= 100
        &&& forall|i: int| 0 <= i < 8 ==> (#[trigger] self.drums.tracks@[i]).volume_m <= 1000
        &&& forall|i: int| 0 <= i < 8 ==> (#[trigger] self.drums.tracks@[i]).kind <= 7
        &&& self.reverb.room_size_m <= 1000
        &&& self.reverb.damping_m <= 1000
        &&& self.reverb.mix_m <= 1000
        &&& 10 <= self.delay.time_ms <= 1000
        &&& self.delay.feedback_m <= 950
        &&& self.delay.mix_m <= 1000
        &&& 1000 <= self.distortion.drive_m <= 10_000
        &&& self.distortion.tone_m <= 1000
        &&& self.distortion.level_m <= 1000
        &&& self.sidechain.depth_m <= 1000
        &&& 10 <= self.sidechain.release_ms <= 500
        &&& self.filter1.mode <= 2
        &&& 80 <= self.filter1.cutoff_hz <= 18_000
        &&& 500 <= self.filter1.q_m <= 10_000
        &&& self.filter2.mode <= 2
        &&& 80 <= self.filter2.cutoff_hz <= 18_000
        &&& 500 <= self.filter2.q_m <= 10_000
        &&& self.routing.s1_reverb_m <= 1000
        &&& self.routing.s1_delay_m <= 1000
        &&& self.routing.s1_dist_m <= 1000
        &&& self.routing.s2_reverb_m <= 1000
        &&& self.routing.s2_delay_m <= 1000
        &&& self.routing.s2_dist_m <= 1000
        &&& self.routing.dr_reverb_m <= 1000
        &&& self.routing.dr_delay_m <= 1000
        &&& self.routing.dr_dist_m <= 1000
    }
}

// ── What a snapshot holds ─────────────────────────────────────────────────

/// The snapshot records exactly the engine's persisted fields, the control
/// surface's octave, scale and root, and each enum by its persisted index.
pub open spec fn is_snapshot_of(
    sf: SaveFile,
    s: Synth,
    base_octave: i32,
    scale: Scale,
    scale_root: u8,
) -> bool {
    &&& sf.bpm == s.bpm
    &&& sf.base_octave == base_octave
    &&& sf.scale == scale.index_spec()
    &&& sf.scale_root == scale_root
    &&& sf.wave1 == s.wave_type.index_spec()
    &&& sf.wave2 == s.wave_type2.index_spec()
    &&& sf.volume_m == s.volume_m
    &&& sf.volume2_m == s.volume2_m
    &&& sf.seq1.num_steps == s.sequencer.num_steps
    &&& sf.seq1.steps@ == s.sequencer.steps@
    &&& sf.seq2.num_steps == s.sequencer2.num_steps
    &&& sf.seq2.steps@ == s.sequencer2.steps@
    &&& sf.drums.num_steps == s.drum_machine.num_steps
    &&& sf.drums.swing_m == s.drum_machine.swing_m
    &&& sf.drums.tracks@.len() == 8
    &&& forall|i: int|
        0 <= i < 8 ==> (#[trigger] sf.drums.tracks@[i]).kind == s.drum_machine.tracks@[
            i].kind.index_spec()
    &&& forall|i: int|
        0 <= i < 8 ==> (#[trigger] sf.drums.tracks@[i]).steps@ == s.drum_machine.tracks@[
            i].steps@
    &&& forall|i: int|
        0 <= i < 8 ==> (#[trigger] sf.drums.tracks@[i]).muted == s.drum_machine.tracks@[i].muted
    &&& forall|i: int|
        0 <= i < 8 ==> (#[trigger] sf.drums.tracks@[i]).volume_m == s.drum_machine.tracks@[
            i].volume_m
    &&& sf.reverb.enabled == s.reverb.enabled
    &&& sf.reverb.room_size_m == s.reverb.room_size_m
    &&& sf.reverb.damping_m == s.reverb.damping_m
    &&& sf.reverb.mix_m == s.reverb.mix_m
    &&& sf.delay.enabled == s.delay.enabled
    &&& sf.delay.time_ms == s.delay.time_ms
    &&& sf.delay.feedback_m == s.delay.feedback_m
    &&& sf.delay.mix_m == s.delay.mix_m
    &&& sf.distortion.enabled == s.distortion.enabled
    &&& sf.distortion.drive_m == s.distortion.drive_m
    &&& sf.distortion.tone_m == s.distortion.tone_m
    &&& sf.distortion.level_m == s.distortion.level_m
    &&& sf.sidechain.enabled == s.sidechain.enabled
    &&& sf.sidechain.depth_m == s.sidechain.depth_m
    &&& sf.sidechain.release_ms == s.sidechain.release_ms
    &&& sf.sidechain.duck_s1 == s.sidechain.duck_s1
    &&& sf.sidechain.duck_s2 == s.sidechain.duck_s2
    &&& sf.filter1.enabled == s.filter1.enabled
    &&& sf.filter1.mode == s.filter1.mode.index_spec()
    &&& sf.filter1.cutoff_hz == s.filter1.cutoff_hz
    &&& sf.filter1.q_m == s.filter1.q_m
    &&& sf.filter2.enabled == s.filter2.enabled
    &&& sf.filter2.mode == s.filter2.mode.index_spec()
    &&& sf.filter2.cutoff_hz == s.filter2.cutoff_hz
    &&& sf.filter2.q_m == s.filter2.q_m
    &&& sf.routing.s1_reverb_m == s.fx_routing.s1_reverb_m
    &&& sf.routing.s1_delay_m == s.fx_routing.s1_delay_m
    &&& sf.routing.s1_dist_m == s.fx_routing.s1_dist_m
    &&& sf.routing.s2_reverb_m == s.fx_routing.s2_reverb_m
    &&& sf.routing.s2_delay_m == s.fx_routing.s2_delay_m
    &&& sf.routing.s2_dist_m == s.fx_routing.s2_dist_m
    &&& sf.routing.dr_reverb_m == s.fx_routing.dr_reverb_m
    &&& sf.routing.dr_delay_m == s.fx_routing.dr_delay_m
    &&& sf.routing.dr_dist_m == s.fx_routing.dr_dist_m
}

// ── Saving ────────────────────────────────────────────────────────────────

fn copy_notes(src: &Vec<Option<u8>>) -> (r: Vec<Option<u8>>)
    ensures
        r@ == src@,
{
    let mut r: Vec<Option<u8>> = Vec::new();
    let mut i: usize = 0;
    while i < src.len()
        invariant
            i <= src@.len(),
            r@ == src@.subrange(0, i as int),
        decreases src@.len() - i,
    {
        r.push(src[i]);
        proof {
            assert(r@ =~= src@.subrange(0, i + 1));
        }
        i = i + 1;
    }
    proof {
        assert(src@.subrange(0, src@.len() as int) =~= src@);
    }
    r
}

fn copy_probs(src: &Vec<u8>) -> (r: Vec<u8>)
    ensures
        r@ == src@,
{
    let mut r: Vec<u8> = Vec::new();
    let mut i: usize = 0;
    while i < src.len()
        invariant
            i <= src@.len(),
            r@ == src@.subrange(0, i as int),
        decreases src@.len() - i,
    {
        r.push(src[i]);
        proof {
            assert(r@ =~= src@.subrange(0, i + 1));
        }
        i = i + 1;
    }
    proof {
        assert(src@.subrange(0, src@.len() as int) =~= src@);
    }
    r
}

/// Capture the engine's persisted state, with the control surface's octave,
/// scale and root, as one snapshot. The result of a well-formed engine is
/// always valid, so saving never writes an out-of-range value.
pub fn snapshot(s: &Synth, base_octave: i32, scale: Scale, scale_root: u8) -> (sf: SaveFile)
    requires
        s.wf(),
        0 <= base_octave <= 8,
        scale_root < 12,
    ensures
        is_snapshot_of(sf, *s, base_octave, scale, scale_root),
        sf.valid(),
{
    let seq1 = SeqSave { num_steps: s.sequencer.num_steps, steps: copy_notes(&s.sequencer.steps) };
    let seq2 = SeqSave {
        num_steps: s.sequencer2.num_steps,
        steps: copy_notes(&s.sequencer2.steps),
    };

    let mut tracks: Vec<TrackSave> = Vec::new();
    let mut i: usize = 0;
    while i < 8
        invariant
            i <= 8,
            s.wf(),
            tracks@.len() == i,
            forall|j: int|
                0 <= j < i ==> (#[trigger] tracks@[j]).kind == s.drum_machine.tracks@[
                    j].kind.index_spec(),
            forall|j: int|
                0 <= j < i ==> (#[trigger] tracks@[j]).steps@ == s.drum_machine.tracks@[j].steps@,
            forall|j: int|
                0 <= j < i ==> (#[trigger] tracks@[j]).muted == s.drum_machine.tracks@[j].muted,
            forall|j: int|
                0 <= j < i ==> (#[trigger] tracks@[j]).volume_m == s.drum_machine.tracks@[
                    j].volume_m,
        decreases 8 - i,
    {
        proof {
            assert(s.drum_machine.tracks@[i as int].wf(s.drum_machine.num_steps));
        }
        let t = &s.drum_machine.tracks[i];
        tracks.push(
            TrackSave {
                kind: t.kind.index(),
                steps: copy_probs(&t.steps),
                muted: t.muted,
                volume_m: t.volume_m,
            },
        );
        i = i + 1;
    }

    proof {
        assert forall|j: int| 0 <= j < 8 implies (#[trigger] tracks@[j]).steps@.len()
            == s.drum_machine.num_steps && tracks@[j].volume_m <= 1000 && tracks@[j].kind <= 7
            && (forall|p: int|
            0 <= p < s.drum_machine.num_steps ==> #[trigger] tracks@[j].steps@[p] <= 100) by {
            assert(s.drum_machine.tracks@[j].wf(s.drum_machine.num_steps));
        }
    }

    SaveFile {
        bpm: s.bpm,
        base_octave,
        scale: scale.index(),
        scale_root,
        wave1: s.wave_type.index(),
        wave2: s.wave_type2.index(),
        volume_m: s.volume_m,
        volume2_m: s.volume2_m,
        seq1,
        seq2,
        drums: DrumsSave {
            num_steps: s.drum_machine.num_steps,
            swing_m: s.drum_machine.swing_m,
            tracks,
        },
        reverb: ReverbSave {
            enabled: s.reverb.enabled,
            room_size_m: s.reverb.room_size_m,
            damping_m: s.reverb.damping_m,
            mix_m: s.reverb.mix_m,
        },
        delay: DelaySave {
            enabled: s.delay.enabled,
            time_ms: s.delay.time_ms,
            feedback_m: s.delay.feedback_m,
            mix_m: s.delay.mix_m,
        },
        distortion: DistSave {
            enabled: s.distortion.enabled,
            drive_m: s.distortion.drive_m,
            tone_m: s.distortion.tone_m,
            level_m: s.distortion.level_m,
        },
        sidechain: SidechainSave {
            enabled: s.sidechain.enabled,
            depth_m: s.sidechain.depth_m,
            release_ms: s.sidechain.release_ms,
            duck_s1: s.sidechain.duck_s1,
            duck_s2: s.sidechain.duck_s2,
        },
        filter1: FilterSave {
            enabled: s.filter1.enabled,
            mode: s.filter1.mode.index(),
            cutoff_hz: s.filter1.cutoff_hz,
            q_m: s.filter1.q_m,
        },
        filter2: FilterSave {
            enabled: s.filter2.enabled,
            mode: s.filter2.mode.index(),
            cutoff_hz: s.filter2.cutoff_hz,
            q_m: s.filter2.q_m,
        },
        routing: RoutingSave {
            s1_reverb_m: s.fx_routing.s1_reverb_m,
            s1_delay_m: s.fx_routing.s1_delay_m,
            s1_dist_m: s.fx_routing.s1_dist_m,
            s2_reverb_m: s.fx_routing.s2_reverb_m,
            s2_delay_m: s.fx_routing.s2_delay_m,
            s2_dist_m: s.fx_routing.s2_dist_m,
            dr_reverb_m: s.fx_routing.dr_reverb_m,
            dr_delay_m: s.fx_routing.dr_delay_m,
            dr_dist_m: s.fx_routing.dr_dist_m,
        },
    }
}

// ── Loading ───────────────────────────────────────────────────────────────

/// Apply a loaded melodic pattern: length clamped, steps cut or padded, the
/// cursor rewound if it fell out of range; playback state is untouched.
fn load_seq(seq: &mut Sequencer, sv: &SeqSave)
    requires
        old(seq).wf(),
    ensures
        final(seq).wf(),
        final(seq).num_steps == clamp_len_spec(sv.num_steps),
        final(seq).steps@ == pad_notes_spec(sv.steps@, clamp_len_spec(sv.num_steps) as int),
        final(seq).playing == old(seq).playing,
        final(seq).sample_rate == old(seq).sample_rate,
        final(seq).current_step == (if old(seq).current_step < clamp_len_spec(sv.num_steps) {
            old(seq).current_step
        } else {
            0
        }),
{
    let n: usize = clamp_len(sv.num_steps);
    let mut steps: Vec<Option<u8>> = Vec::new();
    let mut i: usize = 0;
    while i < n
        invariant
            i <= n,
            steps@.len() == i,
            forall|j: int|
                0 <= j < i ==> steps@[j] == (if j < sv.steps@.len() {
                    sv.steps@[j]
                } else {
                    None::<u8>
                }),
        decreases n - i,
    {
        if i < sv.steps.len() {
            steps.push(sv.steps[i]);
        } else {
            steps.push(None);
        }
        i = i + 1;
    }
    proof {
        assert(steps@ =~= pad_notes_spec(sv.steps@, n as int));
    }
    seq.steps = steps;
    seq.num_steps = n;
    if seq.current_step >= n {
        seq.current_step = 0;
    }
}

/// Apply a loaded drum section: pattern length and swing clamped, each of the
/// eight tracks' steps cut or padded with every probability clamped; a track
/// the snapshot lacks keeps its own pattern (padded) and settings. Kinds,
/// playback state and the voice pool are untouched.
fn load_drums(dm: &mut DrumMachine, ds: &DrumsSave)
    requires
        old(dm).wf(),
    ensures
        final(dm).wf(),
        final(dm).num_steps == clamp_len_spec(ds.num_steps),
        final(dm).swing_m == clamp_spec(ds.swing_m, 0, 500),
        final(dm).tracks@.len() == 8,
        forall|i: int|
            0 <= i < 8 ==> (#[trigger] final(dm).tracks@[i]).kind == old(dm).tracks@[i].kind,
        forall|i: int|
            0 <= i < 8 && i < ds.tracks@.len() ==> ({
                &&& (#[trigger] final(dm).tracks@[i]).muted == ds.tracks@[i].muted
                &&& final(dm).tracks@[i].volume_m == clamp_spec(ds.tracks@[i].volume_m, 0, 1000)
                &&& final(dm).tracks@[i].steps@ == pad_probs_spec(
                    ds.tracks@[i].steps@,
                    clamp_len_spec(ds.num_steps) as int,
                )
            }),
        forall|i: int|
            0 <= i < 8 && i >= ds.tracks@.len() ==> ({
                &&& (#[trigger] final(dm).tracks@[i]).muted == old(dm).tracks@[i].muted
                &&& final(dm).tracks@[i].volume_m == old(dm).tracks@[i].volume_m
                &&& final(dm).tracks@[i].steps@ == pad_probs_spec(
                    old(dm).tracks@[i].steps@,
                    clamp_len_spec(ds.num_steps) as int,
                )
            }),
        final(dm).current_step == (if old(dm).current_step < clamp_len_spec(ds.num_steps) {
            old(dm).current_step
        } else {
            0
        }),
        final(dm).playing == old(dm).playing,
        final(dm).sample_rate == old(dm).sample_rate,
        final(dm).voices@ == old(dm).voices@,
        final(dm).seed == old(dm).seed,
        final(dm).prob_seed == old(dm).prob_seed,
        final(dm).kick_triggered == old(dm).kick_triggered,
{
    let nd: usize = clamp_len(ds.num_steps);
    let mut new_tracks: Vec<crate::drums::DrumTrack> = Vec::new();
    let mut ti: usize = 0;
    while ti < 8
        invariant
            ti <= 8,
            *dm == *old(dm),
            old(dm).wf(),
            1 <= nd <= 32,
            nd == clamp_len_spec(ds.num_steps),
            new_tracks@.len() == ti,
            forall|i: int|
                0 <= i < ti ==> (#[trigger] new_tracks@[i]).kind == old(dm).tracks@[i].kind,
            forall|i: int| 0 <= i < ti ==> (#[trigger] new_tracks@[i]).wf(nd),
            forall|i: int|
                0 <= i < ti && i < ds.tracks@.len() ==> ({
                    &&& (#[trigger] new_tracks@[i]).muted == ds.tracks@[i].muted
                    &&& new_tracks@[i].volume_m == clamp_spec(ds.tracks@[i].volume_m, 0, 1000)
                    &&& new_tracks@[i].steps@ == pad_probs_spec(ds.tracks@[i].steps@, nd as int)
                }),
            forall|i: int|
                0 <= i < ti && i >= ds.tracks@.len() ==> ({
                    &&& (#[trigger] new_tracks@[i]).muted == old(dm).tracks@[i].muted
                    &&& new_tracks@[i].volume_m == old(dm).tracks@[i].volume_m
                    &&& new_tracks@[i].steps@ == pad_probs_spec(old(dm).tracks@[i].steps@, nd as int)
                }),
        decreases 8 - ti,
    {
        proof {
            assert(old(dm).tracks@[ti as int].wf(old(dm).num_steps));
        }
        let from_save: bool = ti < ds.tracks.len();
        let mut steps: Vec<u8> = Vec::new();
        let mut s: usize = 0;
        while s < nd
            invariant
                s <= nd,
                *dm == *old(dm),
                old(dm).wf(),
                ti < 8,
                from_save == (ti < ds.tracks@.len()),
                steps@.len() == s,
                from_save ==> forall|j: int|
                    0 <= j < s ==> #[trigger] steps@[j] == (if j < ds.tracks@[
                        ti as int].steps@.len() {
                        clamp_prob_spec(ds.tracks@[ti as int].steps@[j])
                    } else {
                        0u8
                    }),
                !from_save ==> forall|j: int|
                    0 <= j < s ==> #[trigger] steps@[j] == (if j < old(dm).tracks@[
                        ti as int].steps@.len() {
                        old(dm).tracks@[ti as int].steps@[j]
                    } else {
                        0u8
                    }),
                forall|j: int| 0 <= j < s ==> #[trigger] steps@[j] <= 100,
            decreases nd - s,
        {
            if from_save {
                if s < ds.tracks[ti].steps.len() {
                    let p: u8 = ds.tracks[ti].steps[s];
                    steps.push(if p > 100 {
                        100
                    } else {
                        p
                    });
                } else {
                    steps.push(0);
                }
            } else {
                proof {
                    assert(old(dm).tracks@[ti as int].wf(old(dm).num_steps));
                }
                if s < dm.tracks[ti].steps.len() {
                    steps.push(dm.tracks[ti].steps[s]);
                } else {
                    steps.push(0);
                }
            }
            s = s + 1;
        }
        proof {
            if from_save {
                assert(steps@ =~= pad_probs_spec(ds.tracks@[ti as int].steps@, nd as int));
            } else {
                assert(old(dm).tracks@[ti as int].wf(old(dm).num_steps));
                assert(steps@ =~= pad_probs_spec(old(dm).tracks@[ti as int].steps@, nd as int));
            }
        }
        let muted: bool = if from_save {
            ds.tracks[ti].muted
        } else {
            dm.tracks[ti].muted
        };
        let volume_m: u32 = if from_save {
            clamp_u32(ds.tracks[ti].volume_m, 0, 1000)
        } else {
            proof {
                assert(old(dm).tracks@[ti as int].wf(old(dm).num_steps));
            }
            dm.tracks[ti].volume_m
        };
        new_tracks.push(
            crate::drums::DrumTrack { kind: dm.tracks[ti].kind, steps, muted, volume_m },
        );
        ti = ti + 1;
    }
    dm.tracks = new_tracks;
    dm.num_steps = nd;
    dm.swing_m = clamp_u32(ds.swing_m, 0, 500);
    if dm.current_step >= nd {
        dm.current_step = 0;
    }
}

/// Apply a loaded snapshot to the engine: every numeric field is clamped to
/// its documented range before it is written, so nothing out of range can
/// reach the signal path. Live playback state — the master clock, the
/// sounding voices, the cursors and play flags — is untouched (except a
/// cursor that the new pattern length left out of range, which rewinds).
pub fn apply_save(s: &mut Synth, sf: &SaveFile)
    requires
        old(s).wf(),
    ensures
        final(s).wf(),
        final(s).bpm == clamp_spec(sf.bpm, 30, 300),
        final(s).wave_type == WaveType::from_index_spec(sf.wave1 as int),
        final(s).wave_type2 == WaveType::from_index_spec(sf.wave2 as int),
        final(s).volume_m == clamp_spec(sf.volume_m, 0, 1000),
        final(s).volume2_m == clamp_spec(sf.volume2_m, 0, 1000),
        final(s).sample_rate == old(s).sample_rate,
        final(s).master_clock == old(s).master_clock,
        final(s).voices@ == old(s).voices@,
        final(s).voices2@ == old(s).voices2@,
        final(s).env == old(s).env,
        final(s).env2 == old(s).env2,
        final(s).sequencer.num_steps == clamp_len_spec(sf.seq1.num_steps),
        final(s).sequencer.steps@ == pad_notes_spec(
            sf.seq1.steps@,
            clamp_len_spec(sf.seq1.num_steps) as int,
        ),
        final(s).sequencer.playing == old(s).sequencer.playing,
        final(s).sequencer.sample_rate == old(s).sequencer.sample_rate,
        final(s).sequencer2.num_steps == clamp_len_spec(sf.seq2.num_steps),
        final(s).sequencer2.steps@ == pad_notes_spec(
            sf.seq2.steps@,
            clamp_len_spec(sf.seq2.num_steps) as int,
        ),
        final(s).sequencer2.playing == old(s).sequencer2.playing,
        final(s).sequencer2.sample_rate == old(s).sequencer2.sample_rate,
        final(s).drum_machine.num_steps == clamp_len_spec(sf.drums.num_steps),
        final(s).drum_machine.swing_m == clamp_spec(sf.drums.swing_m, 0, 500),
        forall|i: int|
            0 <= i < 8 ==> (#[trigger] final(s).drum_machine.tracks@[i]).kind == old(
                s,
            ).drum_machine.tracks@[i].kind,
        forall|i: int|
            0 <= i < 8 && i < sf.drums.tracks@.len() ==> ({
                &&& (#[trigger] final(s).drum_machine.tracks@[i]).muted == sf.drums.tracks@[
                    i].muted
                &&& final(s).drum_machine.tracks@[i].volume_m == clamp_spec(
                    sf.drums.tracks@[i].volume_m,
                    0,
                    1000,
                )
                &&& final(s).drum_machine.tracks@[i].steps@ == pad_probs_spec(
                    sf.drums.tracks@[i].steps@,
                    clamp_len_spec(sf.drums.num_steps) as int,
                )
            }),
        final(s).drum_machine.playing == old(s).drum_machine.playing,
        final(s).drum_machine.voices@ == old(s).drum_machine.voices@,
        final(s).drum_machine.seed == old(s).drum_machine.seed,
        final(s).drum_machine.prob_seed == old(s).drum_machine.prob_seed,
        final(s).reverb.enabled == sf.reverb.enabled,
        final(s).reverb.room_size_m == clamp_spec(sf.reverb.room_size_m, 0, 1000),
        final(s).reverb.damping_m == clamp_spec(sf.reverb.damping_m, 0, 1000),
        final(s).reverb.mix_m == clamp_spec(sf.reverb.mix_m, 0, 1000),
        final(s).delay.enabled == sf.delay.enabled,
        final(s).delay.time_ms == clamp_spec(sf.delay.time_ms, 10, 1000),
        final(s).delay.feedback_m == clamp_spec(sf.delay.feedback_m, 0, 950),
        final(s).delay.mix_m == clamp_spec(sf.delay.mix_m, 0, 1000),
        final(s).distortion.enabled == sf.distortion.enabled,
        final(s).distortion.drive_m == clamp_spec(sf.distortion.drive_m, 1000, 10_000),
        final(s).distortion.tone_m == clamp_spec(sf.distortion.tone_m, 0, 1000),
        final(s).distortion.level_m == clamp_spec(sf.distortion.level_m, 0, 1000),
        final(s).sidechain.enabled == sf.sidechain.enabled,
        final(s).sidechain.depth_m == clamp_spec(sf.sidechain.depth_m, 0, 1000),
        final(s).sidechain.release_ms == clamp_spec(sf.sidechain.release_ms, 10, 500),
        final(s).sidechain.duck_s1 == sf.sidechain.duck_s1,
        final(s).sidechain.duck_s2 == sf.sidechain.duck_s2,
        final(s).filter1.enabled == sf.filter1.enabled,
        final(s).filter1.mode == FilterMode::from_index_spec(sf.filter1.mode as int),
        final(s).filter1.cutoff_hz == clamp_spec(sf.filter1.cutoff_hz, 80, 18_000),
        final(s).filter1.q_m == clamp_spec(sf.filter1.q_m, 500, 10_000),
        final(s).filter2.enabled == sf.filter2.enabled,
        final(s).filter2.mode == FilterMode::from_index_spec(sf.filter2.mode as int),
        final(s).filter2.cutoff_hz == clamp_spec(sf.filter2.cutoff_hz, 80, 18_000),
        final(s).filter2.q_m == clamp_spec(sf.filter2.q_m, 500, 10_000),
        final(s).fx_routing.s1_reverb_m == clamp_spec(sf.routing.s1_reverb_m, 0, 1000),
        final(s).fx_routing.s1_delay_m == clamp_spec(sf.routing.s1_delay_m, 0, 1000),
        final(s).fx_routing.s1_dist_m == clamp_spec(sf.routing.s1_dist_m, 0, 1000),
        final(s).fx_routing.s2_reverb_m == clamp_spec(sf.routing.s2_reverb_m, 0, 1000),
        final(s).fx_routing.s2_delay_m == clamp_spec(sf.routing.s2_delay_m, 0, 1000),
        final(s).fx_routing.s2_dist_m == clamp_spec(sf.routing.s2_dist_m, 0, 1000),
        final(s).fx_routing.dr_reverb_m == clamp_spec(sf.routing.dr_reverb_m, 0, 1000),
        final(s).fx_routing.dr_delay_m == clamp_spec(sf.routing.dr_delay_m, 0, 1000),
        final(s).fx_routing.dr_dist_m == clamp_spec(sf.routing.dr_dist_m, 0, 1000),
{
    s.bpm = clamp_u32(sf.bpm, 30, 300);
    s.wave_type = WaveType::from_index(sf.wave1);
    s.wave_type2 = WaveType::from_index(sf.wave2);
    s.volume_m = clamp_u32(sf.volume_m, 0, 1000);
    s.volume2_m = clamp_u32(sf.volume2_m, 0, 1000);

    load_seq(&mut s.sequencer, &sf.seq1);
    load_seq(&mut s.sequencer2, &sf.seq2);
    load_drums(&mut s.drum_machine, &sf.drums);

    s.reverb = Reverb {
        enabled: sf.reverb.enabled,
        room_size_m: clamp_u32(sf.reverb.room_size_m, 0, 1000),
        damping_m: clamp_u32(sf.reverb.damping_m, 0, 1000),
        mix_m: clamp_u32(sf.reverb.mix_m, 0, 1000),
    };
    s.delay = Delay {
        enabled: sf.delay.enabled,
        time_ms: clamp_u32(sf.delay.time_ms, 10, 1000),
        feedback_m: clamp_u32(sf.delay.feedback_m, 0, 950),
        mix_m: clamp_u32(sf.delay.mix_m, 0, 1000),
    };
    s.distortion = Distortion {
        enabled: sf.distortion.enabled,
        drive_m: clamp_u32(sf.distortion.drive_m, 1000, 10_000),
        tone_m: clamp_u32(sf.distortion.tone_m, 0, 1000),
        level_m: clamp_u32(sf.distortion.level_m, 0, 1000),
    };
    s.sidechain = Sidechain {
        enabled: sf.sidechain.enabled,
        depth_m: clamp_u32(sf.sidechain.depth_m, 0, 1000),
        release_ms: clamp_u32(sf.sidechain.release_ms, 10, 500),
        duck_s1: sf.sidechain.duck_s1,
        duck_s2: sf.sidechain.duck_s2,
    };
    s.filter1 = BiquadFilter {
        enabled: sf.filter1.enabled,
        mode: FilterMode::from_index(sf.filter1.mode),
        cutoff_hz: clamp_u32(sf.filter1.cutoff_hz, 80, 18_000),
        q_m: clamp_u32(sf.filter1.q_m, 500, 10_000),
    };
    s.filter2 = BiquadFilter {
        enabled: sf.filter2.enabled,
        mode: FilterMode::from_index(sf.filter2.mode),
        cutoff_hz: clamp_u32(sf.filter2.cutoff_hz, 80, 18_000),
        q_m: clamp_u32(sf.filter2.q_m, 500, 10_000),
    };
    s.fx_routing = FxRouting {
        s1_reverb_m: clamp_u32(sf.routing.s1_reverb_m, 0, 1000),
        s1_delay_m: clamp_u32(sf.routing.s1_delay_m, 0, 1000),
        s1_dist_m: clamp_u32(sf.routing.s1_dist_m, 0, 1000),
        s2_reverb_m: clamp_u32(sf.routing.s2_reverb_m, 0, 1000),
        s2_delay_m: clamp_u32(sf.routing.s2_delay_m, 0, 1000),
        s2_dist_m: clamp_u32(sf.routing.s2_dist_m, 0, 1000),
        dr_reverb_m: clamp_u32(sf.routing.dr_reverb_m, 0, 1000),
        dr_delay_m: clamp_u32(sf.routing.dr_delay_m, 0, 1000),
        dr_dist_m: clamp_u32(sf.routing.dr_dist_m, 0, 1000),
    };
}

/// The control-surface fields of a loaded snapshot, clamped: the base octave
/// into 0 to 8, the scale by its persisted index, the root into a pitch
/// class.
pub fn control_from_save(sf: &SaveFile) -> (r: (i32, Scale, u8))
    ensures
        r.0 == (if sf.base_octave < 0 {
            0i32
        } else if sf.base_octave > 8 {
            8i32
        } else {
            sf.base_octave
        }),
        r.1 == Scale::from_index_spec(sf.scale as int),
        r.2 == sf.scale_root % 12,
{
    let oct: i32 = if sf.base_octave < 0 {
        0
    } else if sf.base_octave > 8 {
        8
    } else {
        sf.base_octave
    };
    (oct, Scale::from_index(sf.scale), sf.scale_root % 12)
}

// ── The round-trip law ────────────────────────────────────────────────────

/// Saving and loading loses nothing: for a well-formed engine, every field
/// that `apply_save` would write from the engine's own snapshot equals the
/// field the engine already has — the clamps are the identity on a valid
/// snapshot, cutting or padding a pattern to its own recorded length returns
/// it unchanged, and each enum survives its index. The control-surface
/// fields round-trip the same way.
pub proof fn lemma_save_load_round_trip(
    sf: SaveFile,
    s: Synth,
    base_octave: i32,
    scale: Scale,
    scale_root: u8,
)
    requires
        s.wf(),
        0 <= base_octave <= 8,
        scale_root < 12,
        is_snapshot_of(sf, s, base_octave, scale, scale_root),
    ensures
        clamp_spec(sf.bpm, 30, 300) == s.bpm,
        WaveType::from_index_spec(sf.wave1 as int) == s.wave_type,
        WaveType::from_index_spec(sf.wave2 as int) == s.wave_type2,
        clamp_spec(sf.volume_m, 0, 1000) == s.volume_m,
        clamp_spec(sf.volume2_m, 0, 1000) == s.volume2_m,
        clamp_len_spec(sf.seq1.num_steps) == s.sequencer.num_steps,
        pad_notes_spec(sf.seq1.steps@, clamp_len_spec(sf.seq1.num_steps) as int)
            == s.sequencer.steps@,
        clamp_len_spec(sf.seq2.num_steps) == s.sequencer2.num_steps,
        pad_notes_spec(sf.seq2.steps@, clamp_len_spec(sf.seq2.num_steps) as int)
            == s.sequencer2.steps@,
        clamp_len_spec(sf.drums.num_steps) == s.drum_machine.num_steps,
        clamp_spec(sf.drums.swing_m, 0, 500) == s.drum_machine.swing_m,
        forall|i: int|
            0 <= i < 8 ==> DrumKind::from_index_spec((#[trigger] sf.drums.tracks@[i]).kind as int)
                == s.drum_machine.tracks@[i].kind,
        forall|i: int|
            0 <= i < 8 ==> (#[trigger] sf.drums.tracks@[i]).muted == s.drum_machine.tracks@[
                i].muted,
        forall|i: int|
            0 <= i < 8 ==> clamp_spec((#[trigger] sf.drums.tracks@[i]).volume_m, 0, 1000)
                == s.drum_machine.tracks@[i].volume_m,
        forall|i: int|
            0 <= i < 8 ==> pad_probs_spec(
                (#[trigger] sf.drums.tracks@[i]).steps@,
                clamp_len_spec(sf.drums.num_steps) as int,
            ) == s.drum_machine.tracks@[i].steps@,
        clamp_spec(sf.reverb.room_size_m, 0, 1000) == s.reverb.room_size_m,
        clamp_spec(sf.reverb.damping_m, 0, 1000) == s.reverb.damping_m,
        clamp_spec(sf.reverb.mix_m, 0, 1000) == s.reverb.mix_m,
        clamp_spec(sf.delay.time_ms, 10, 1000) == s.delay.time_ms,
        clamp_spec(sf.delay.feedback_m, 0, 950) == s.delay.feedback_m,
        clamp_spec(sf.delay.mix_m, 0, 1000) == s.delay.mix_m,
        clamp_spec(sf.distortion.drive_m, 1000, 10_000) == s.distortion.drive_m,
        clamp_spec(sf.distortion.tone_m, 0, 1000) == s.distortion.tone_m,
        clamp_spec(sf.distortion.level_m, 0, 1000) == s.distortion.level_m,
        clamp_spec(sf.sidechain.depth_m, 0, 1000) == s.sidechain.depth_m,
        clamp_spec(sf.sidechain.release_ms, 10, 500) == s.sidechain.release_ms,
        FilterMode::from_index_spec(sf.filter1.mode as int) == s.filter1.mode,
        clamp_spec(sf.filter1.cutoff_hz, 80, 18_000) == s.filter1.cutoff_hz,
        clamp_spec(sf.filter1.q_m, 500, 10_000) == s.filter1.q_m,
        FilterMode::from_index_spec(sf.filter2.mode as int) == s.filter2.mode,
        clamp_spec(sf.filter2.cutoff_hz, 80, 18_000) == s.filter2.cutoff_hz,
        clamp_spec(sf.filter2.q_m, 500, 10_000) == s.filter2.q_m,
        clamp_spec(sf.routing.s1_reverb_m, 0, 1000) == s.fx_routing.s1_reverb_m,
        clamp_spec(sf.routing.s1_delay_m, 0, 1000) == s.fx_routing.s1_delay_m,
        clamp_spec(sf.routing.s1_dist_m, 0, 1000) == s.fx_routing.s1_dist_m,
        clamp_spec(sf.routing.s2_reverb_m, 0, 1000) == s.fx_routing.s2_reverb_m,
        clamp_spec(sf.routing.s2_delay_m, 0, 1000) == s.fx_routing.s2_delay_m,
        clamp_spec(sf.routing.s2_dist_m, 0, 1000) == s.fx_routing.s2_dist_m,
        clamp_spec(sf.routing.dr_reverb_m, 0, 1000) == s.fx_routing.dr_reverb_m,
        clamp_spec(sf.routing.dr_delay_m, 0, 1000) == s.fx_routing.dr_delay_m,
        clamp_spec(sf.routing.dr_dist_m, 0, 1000) == s.fx_routing.dr_dist_m,
        (if sf.base_octave < 0 {
            0i32
        } else if sf.base_octave > 8 {
            8i32
        } else {
            sf.base_octave
        }) == base_octave,
        Scale::from_index_spec(sf.scale as int) == scale,
        sf.scale_root % 12 == scale_root,
{
    assert(pad_notes_spec(sf.seq1.steps@, clamp_len_spec(sf.seq1.num_steps) as int)
        =~= s.sequencer.steps@);
    assert(pad_notes_spec(sf.seq2.steps@, clamp_len_spec(sf.seq2.num_steps) as int)
        =~= s.sequencer2.steps@);
    assert forall|i: int| 0 <= i < 8 implies pad_probs_spec(
        (#[trigger] sf.drums.tracks@[i]).steps@,
        clamp_len_spec(sf.drums.num_steps) as int,
    ) == s.drum_machine.tracks@[i].steps@ by {
        assert(s.drum_machine.tracks@[i].wf(s.drum_machine.num_steps));
        assert(pad_probs_spec(sf.drums.tracks@[i].steps@, clamp_len_spec(sf.drums.num_steps) as int)
            =~= s.drum_machine.tracks@[i].steps@);
    }
    assert forall|i: int| 0 <= i < 8 implies clamp_spec(
        (#[trigger] sf.drums.tracks@[i]).volume_m,
        0,
        1000,
    ) == s.drum_machine.tracks@[i].volume_m by {
        assert(s.drum_machine.tracks@[i].wf(s.drum_machine.num_steps));
    }
}

} // verus!
