//! Eight-track drum machine: procedurally seeded drum voices, swing,
//! per-step trigger probabilities and Euclidean fills.

use vstd::prelude::*;
use vstd::arithmetic::div_mod::*;
use crate::sequencer::samples_per_step_spec;
use crate::sequencer::samples_per_step;

verus! {

// ── Drum kind ─────────────────────────────────────────────────────────────

#[derive(Clone, Copy, Debug, PartialEq, Eq, Structural)]
pub enum DrumKind {
    Kick,
    Snare,
    ClosedHat,
    OpenHat,
    Clap,
    LowTom,
    MidTom,
    HighTom,
}

impl DrumKind {
    /// Display name (padded to a fixed five columns).
    pub fn name(self) -> (r: &'static str)
        ensures
            r@ == (match self {
                DrumKind::Kick => "Kick "@,
                DrumKind::Snare => "Snare"@,
                DrumKind::ClosedHat => "C-Hat"@,
                DrumKind::OpenHat => "O-Hat"@,
                DrumKind::Clap => "Clap "@,
                DrumKind::LowTom => "L.Tom"@,
                DrumKind::MidTom => "M.Tom"@,
                DrumKind::HighTom => "H.Tom"@,
            }),
    {
        match self {
            DrumKind::Kick => "Kick ",
            DrumKind::Snare => "Snare",
            DrumKind::ClosedHat => "C-Hat",
            DrumKind::OpenHat => "O-Hat",
            DrumKind::Clap => "Clap ",
            DrumKind::LowTom => "L.Tom",
            DrumKind::MidTom => "M.Tom",
            DrumKind::HighTom => "H.Tom",
        }
    }

    /// Position of this kind in the fixed track order.
    pub open spec fn index_spec(self) -> int {
        match self {
            DrumKind::Kick => 0,
            DrumKind::Snare => 1,
            DrumKind::ClosedHat => 2,
            DrumKind::OpenHat => 3,
            DrumKind::Clap => 4,
            DrumKind::LowTom => 5,
            DrumKind::MidTom => 6,
            DrumKind::HighTom => 7,
        }
    }

    pub fn index(self) -> (i: u8)
        ensures
            i == self.index_spec(),
    {
        match self {
            DrumKind::Kick => 0,
            DrumKind::Snare => 1,
            DrumKind::ClosedHat => 2,
            DrumKind::OpenHat => 3,
            DrumKind::Clap => 4,
            DrumKind::LowTom => 5,
            DrumKind::MidTom => 6,
            DrumKind::HighTom => 7,
        }
    }

    /// The kind at a track position (the inverse of `index`).
    pub open spec fn from_index_spec(i: int) -> DrumKind {
        if i == 1 {
            DrumKind::Snare
        } else if i == 2 {
            DrumKind::ClosedHat
        } else if i == 3 {
            DrumKind::OpenHat
        } else if i == 4 {
            DrumKind::Clap
        } else if i == 5 {
            DrumKind::LowTom
        } else if i == 6 {
            DrumKind::MidTom
        } else if i == 7 {
            DrumKind::HighTom
        } else {
            DrumKind::Kick
        }
    }

    pub fn from_index(i: u8) -> (k: DrumKind)
        ensures
            k == DrumKind::from_index_spec(i as int),
    {
        match i {
            1 => DrumKind::Snare,
            2 => DrumKind::ClosedHat,
            3 => DrumKind::OpenHat,
            4 => DrumKind::Clap,
            5 => DrumKind::LowTom,
            6 => DrumKind::MidTom,
            7 => DrumKind::HighTom,
            _ => DrumKind::Kick,
        }
    }

    /// Maximum duration of one hit of this kind, in milliseconds; the voice is
    /// dropped after this.
    pub open spec fn duration_ms_spec(self) -> u32 {
        match self {
            DrumKind::Kick => 500,
            DrumKind::Snare => 200,
            DrumKind::ClosedHat => 60,
            DrumKind::OpenHat => 380,
            DrumKind::Clap => 220,
            DrumKind::LowTom => 620,
            DrumKind::MidTom => 420,
            DrumKind::HighTom => 300,
        }
    }

    pub fn duration_ms(self) -> (ms: u32)
        ensures
            ms == self.duration_ms_spec(),
            ms <= 620,
    {
        match self {
            DrumKind::Kick => 500,
            DrumKind::Snare => 200,
            DrumKind::ClosedHat => 60,
            DrumKind::OpenHat => 380,
            DrumKind::Clap => 220,
            DrumKind::LowTom => 620,
            DrumKind::MidTom => 420,
            DrumKind::HighTom => 300,
        }
    }
}

// ── Noise and seed streams ────────────────────────────────────────────────

/// One step of the 32-bit xorshift generator used for noise timbre and for
/// probability rolls.
pub open spec fn xorshift32_spec(s: u32) -> u32 {
    let a = s ^ (s << 13u32);
    let b = a ^ (a >> 17u32);
    b ^ (b << 5u32)
}

pub fn xorshift32(s: u32) -> (r: u32)
    ensures
        r == xorshift32_spec(s),
{
    let a: u32 = s ^ (s << 13u32);
    let b: u32 = a ^ (a >> 17u32);
    b ^ (b << 5u32)
}

/// One step of the linear-congruential trigger-seed stream: every spawned
/// drum voice gets a fresh seed so simultaneous hits sound distinct.
pub open spec fn seed_step_spec(s: u32) -> u32 {
    ((s * 1_664_525 + 1_013_904_223) % 0x1_0000_0000) as u32
}

pub fn seed_step(s: u32) -> (r: u32)
    ensures
        r == seed_step_spec(s),
{
    (((s as u64) * 1_664_525 + 1_013_904_223) % 0x1_0000_0000) as u32
}

// ── Single drum voice ─────────────────────────────────────────────────────

/// One triggered drum hit: its kind, how far it has played, its fixed total
/// duration, the private noise seed that makes its timbre unique, and the
/// track volume (per-mille) it was fired at. Many voices of the same or
/// different kinds play in parallel inside `DrumMachine::voices`.
#[derive(Clone, Copy, Debug, PartialEq, Eq, Structural)]
pub struct DrumVoice {
    pub kind: DrumKind,
    pub sample_pos: u64,
    pub dur_samples: u64,
    pub noise: u32,
    pub volume_m: u32,
}

/// Duration of a hit in whole samples, rounded up.
pub open spec fn drum_dur_samples(kind: DrumKind, sr: u32) -> int {
    (kind.duration_ms_spec() * sr + 999) / 1000
}

/// The voice a trigger spawns: starts at its first sample, runs for the
/// kind's fixed duration, and carries an odd (hence never zero) noise seed.
pub open spec fn spawn_voice(kind: DrumKind, sr: u32, seed: u32, volume_m: u32) -> DrumVoice {
    DrumVoice {
        kind,
        sample_pos: 0,
        dur_samples: drum_dur_samples(kind, sr) as u64,
        noise: seed | 1u32,
        volume_m,
    }
}

impl DrumVoice {
    pub open spec fn wf(self) -> bool {
        &&& self.sample_pos <= self.dur_samples
        &&& self.dur_samples <= 620_000_000
        &&& self.volume_m <= 1000
    }

    pub fn new(kind: DrumKind, sample_rate: u32, seed: u32, volume_m: u32) -> (v: DrumVoice)
        requires
            1 <= sample_rate <= 1_000_000,
            volume_m <= 1000,
        ensures
            v == spawn_voice(kind, sample_rate, seed, volume_m),
            v.wf(),
    {
        let ms: u32 = kind.duration_ms();
        proof {
            assert(ms * sample_rate <= 620 * 1_000_000) by (nonlinear_arith)
                requires
                    ms <= 620,
                    sample_rate <= 1_000_000,
            ;
        }
        let dur: u64 = (ms as u64 * sample_rate as u64 + 999) / 1000;
        DrumVoice { kind, sample_pos: 0, dur_samples: dur, noise: seed | 1u32, volume_m }
    }

    pub fn is_finished(&self) -> (r: bool)
        ensures
            r == (self.sample_pos >= self.dur_samples),
    {
        self.sample_pos >= self.dur_samples
    }
}

/// Open hats removed from the pool (the hi-hat choke).
pub open spec fn drop_open_hats(vs: Seq<DrumVoice>) -> Seq<DrumVoice>
    decreases vs.len(),
{
    if vs.len() == 0 {
        Seq::empty()
    } else {
        let rest = drop_open_hats(vs.drop_last());
        if vs.last().kind == DrumKind::OpenHat {
            rest
        } else {
            rest.push(vs.last())
        }
    }
}

/// Every live voice advanced one sample; voices that reach their duration
/// leave the pool.
pub open spec fn advance_prune(vs: Seq<DrumVoice>) -> Seq<DrumVoice>
    decreases vs.len(),
{
    if vs.len() == 0 {
        Seq::empty()
    } else {
        let rest = advance_prune(vs.drop_last());
        let v = vs.last();
        if v.sample_pos + 1 < v.dur_samples {
            rest.push(DrumVoice { sample_pos: (v.sample_pos + 1) as u64, ..v })
        } else {
            rest
        }
    }
}

/// Every voice the advance keeps still has samples left to play: a hit whose
/// fixed duration has elapsed leaves the pool on that very sample, which
/// bounds the pool without any release gesture.
pub proof fn lemma_expired_voices_leave_the_pool(vs: Seq<DrumVoice>)
    ensures
        forall|i: int|
            0 <= i < advance_prune(vs).len() ==> (#[trigger] advance_prune(vs)[i]).sample_pos < (
            advance_prune(vs)[i]).dur_samples,
    decreases vs.len(),
{
    if vs.len() > 0 {
        lemma_expired_voices_leave_the_pool(vs.drop_last());
    }
}

// ── Drum track ────────────────────────────────────────────────────────────

/// One row in the drum machine: an instrument, its per-step trigger
/// probabilities (0 = off, 100 = always), a mute flag and a volume.
pub struct DrumTrack {
    pub kind: DrumKind,
    pub steps: Vec<u8>,
    pub muted: bool,
    pub volume_m: u32,
}

/// A vector of `n` cleared (zero-probability) steps.
fn zero_steps(n: usize) -> (r: Vec<u8>)
    ensures
        r@.len() == n,
        forall|i: int| 0 <= i < n ==> r@[i] == 0,
{
    let mut r: Vec<u8> = Vec::new();
    let mut i: usize = 0;
    while i < n
        invariant
            i <= n,
            r@.len() == i,
            forall|j: int| 0 <= j < i ==> r@[j] == 0,
        decreases n - i,
    {
        r.push(0);
        i = i + 1;
    }
    r
}

impl DrumTrack {
    pub open spec fn wf(self, num_steps: usize) -> bool {
        &&& self.steps@.len() == num_steps
        &&& self.volume_m <= 1000
        &&& forall|i: int| 0 <= i < self.steps@.len() ==> self.steps@[i] <= 100
    }

    pub fn new(kind: DrumKind, num_steps: usize) -> (t: DrumTrack)
        ensures
            t.wf(num_steps),
            t.kind == kind,
            !t.muted,
            t.volume_m == 850,
            forall|i: int| 0 <= i < num_steps ==> t.steps@[i] == 0,
    {
        DrumTrack { kind, steps: zero_steps(num_steps), muted: false, volume_m: 850 }
    }
}

// ── Drum machine ──────────────────────────────────────────────────────────

/// Eight-track polyphonic step sequencer with procedurally synthesised drum
/// voices. The tempo is supplied externally from the engine's master `bpm`,
/// so the drum machine stays locked to the melodic sequencers without a
/// separate clock. Two independent xorshift streams live here: `prob_seed`
/// gates probability rolls, while `seed` advances once per spawned voice so
/// probability outcomes and noise timbre never correlate.
pub struct DrumMachine {
    pub tracks: Vec<DrumTrack>,
    pub num_steps: usize,
    pub current_step: usize,
    pub playing: bool,
    /// Swing in per-mille of one step (0 = straight, 500 = maximum).
    pub swing_m: u32,
    pub sample_rate: u32,
    /// Polyphonic voice pool: all currently sounding drum hits.
    pub voices: Vec<DrumVoice>,
    /// Seed advanced before each trigger, for distinct noise timbre.
    pub seed: u32,
    /// Separate xorshift state used only for probability rolls.
    pub prob_seed: u32,
    /// Set on each sample where a kick fires; drives sidechain ducking.
    pub kick_triggered: bool,
}

impl DrumMachine {
    pub open spec fn wf(self) -> bool {
        &&& self.tracks@.len() == 8
        &&& 1 <= self.num_steps <= 32
        &&& self.current_step < self.num_steps
        &&& self.swing_m <= 500
        &&& 1 <= self.sample_rate <= 1_000_000
        &&& forall|i: int| 0 <= i < 8 ==> #[trigger] self.tracks@[i].wf(self.num_steps)
        &&& forall|i: int| 0 <= i < self.voices@.len() ==> #[trigger] self.voices@[i].wf()
    }

    pub fn new(sample_rate: u32) -> (dm: DrumMachine)
        requires
            1 <= sample_rate <= 1_000_000,
        ensures
            dm.wf(),
            dm.num_steps == 16,
            dm.current_step == 0,
            !dm.playing,
            dm.swing_m == 0,
            dm.sample_rate == sample_rate,
            dm.voices@.len() == 0,
            dm.seed == 0xBEEF_CAFEu32,
            dm.prob_seed == 0xDEAD_BEEFu32,
            !dm.kick_triggered,
            forall|i: int|
                0 <= i < 8 ==> (#[trigger] dm.tracks@[i]).kind == DrumKind::from_index_spec(i),
            forall|i: int, s: int|
                0 <= i < 8 && 0 <= s < 16 ==> #[trigger] dm.tracks@[i].steps@[s] == 0,
            forall|i: int| 0 <= i < 8 ==> !(#[trigger] dm.tracks@[i]).muted,
            forall|i: int| 0 <= i < 8 ==> (#[trigger] dm.tracks@[i]).volume_m == 850,
    {
        let mut tracks: Vec<DrumTrack> = Vec::new();
        let mut i: u8 = 0;
        while i < 8
            invariant
                i <= 8,
                tracks@.len() == i,
                forall|j: int| 0 <= j < i ==> (#[trigger] tracks@[j]).wf(16usize),
                forall|j: int|
                    0 <= j < i ==> (#[trigger] tracks@[j]).kind == DrumKind::from_index_spec(j),
                forall|j: int, s: int|
                    0 <= j < i && 0 <= s < 16 ==> #[trigger] tracks@[j].steps@[s] == 0,
                forall|j: int| 0 <= j < i ==> !(#[trigger] tracks@[j]).muted,
                forall|j: int| 0 <= j < i ==> (#[trigger] tracks@[j]).volume_m == 850,
            decreases 8 - i,
        {
            tracks.push(DrumTrack::new(DrumKind::from_index(i), 16));
            i = i + 1;
        }
        DrumMachine {
            tracks,
            num_steps: 16,
            current_step: 0,
            playing: false,
            swing_m: 0,
            sample_rate,
            voices: Vec::new(),
            seed: 0xBEEF_CAFE,
            prob_seed: 0xDEAD_BEEF,
            kick_triggered: false,
        }
    }

    /// Everything but the track list and the voice pool agrees.
    pub open spec fn same_shell(self, o: DrumMachine) -> bool {
        &&& self.num_steps == o.num_steps
        &&& self.current_step == o.current_step
        &&& self.playing == o.playing
        &&& self.swing_m == o.swing_m
        &&& self.sample_rate == o.sample_rate
        &&& self.voices@ == o.voices@
        &&& self.seed == o.seed
        &&& self.prob_seed == o.prob_seed
        &&& self.kick_triggered == o.kick_triggered
    }

    /// The same track except for its step pattern.
    pub open spec fn same_track_shell(a: DrumTrack, b: DrumTrack) -> bool {
        &&& a.kind == b.kind
        &&& a.muted == b.muted
        &&& a.volume_m == b.volume_m
    }

    /// Replace one entry of a track's step pattern; anything out of range is
    /// a no-op.
    fn set_track_step(&mut self, track: usize, step: usize, value: u8)
        requires
            old(self).wf(),
            value <= 100,
        ensures
            final(self).wf(),
            final(self).same_shell(*old(self)),
            final(self).tracks@.len() == 8,
            track < 8 && step < old(self).num_steps ==> ({
                &&& final(self).tracks@[track as int].steps@ == old(self).tracks@[
                    track as int].steps@.update(step as int, value)
                &&& DrumMachine::same_track_shell(
                    final(self).tracks@[track as int],
                    old(self).tracks@[track as int],
                )
                &&& forall|j: int|
                    0 <= j < 8 && j != track ==> final(self).tracks@[j] == old(self).tracks@[j]
            }),
            !(track < 8 && step < old(self).num_steps) ==> final(self).tracks@ == old(
                self,
            ).tracks@,
    {
        if track < self.tracks.len() && step < self.num_steps {
            proof {
                assert(old(self).tracks@[track as int].wf(old(self).num_steps));
            }
            let mut t: DrumTrack = self.tracks.remove(track);
            t.steps.set(step, value);
            self.tracks.insert(track, t);
            proof {
                assert(self.tracks@ =~= old(self).tracks@.update(
                    track as int,
                    self.tracks@[track as int],
                ));
                assert forall|i: int| 0 <= i < 8 implies #[trigger] self.tracks@[i].wf(
                    self.num_steps,
                ) by {
                    assert(old(self).tracks@[i].wf(old(self).num_steps));
                }
            }
        }
    }

    /// Toggle a step between off and an always-fire probability of 100.
    pub fn toggle_step(&mut self, track: usize, step: usize)
        requires
            old(self).wf(),
        ensures
            final(self).wf(),
            final(self).same_shell(*old(self)),
            track < 8 && step < old(self).num_steps ==> ({
                let was = old(self).tracks@[track as int].steps@[step as int];
                &&& final(self).tracks@[track as int].steps@ == old(self).tracks@[
                    track as int].steps@.update(step as int, if was == 0 { 100u8 } else { 0u8 })
                &&& DrumMachine::same_track_shell(
                    final(self).tracks@[track as int],
                    old(self).tracks@[track as int],
                )
                &&& forall|j: int|
                    0 <= j < 8 && j != track ==> final(self).tracks@[j] == old(self).tracks@[j]
            }),
            !(track < 8 && step < old(self).num_steps) ==> final(self).tracks@ == old(
                self,
            ).tracks@,
    {
        if track < self.tracks.len() && step < self.num_steps {
            proof {
                assert(self.tracks@[track as int].wf(self.num_steps));
            }
            let was: u8 = self.tracks[track].steps[step];
            self.set_track_step(track, step, if was == 0 {
                100
            } else {
                0
            });
        }
    }

    /// Clear a step back to zero probability.
    pub fn clear_step(&mut self, track: usize, step: usize)
        requires
            old(self).wf(),
        ensures
            final(self).wf(),
            final(self).same_shell(*old(self)),
            track < 8 && step < old(self).num_steps ==> ({
                &&& final(self).tracks@[track as int].steps@ == old(self).tracks@[
                    track as int].steps@.update(step as int, 0u8)
                &&& DrumMachine::same_track_shell(
                    final(self).tracks@[track as int],
                    old(self).tracks@[track as int],
                )
                &&& forall|j: int|
                    0 <= j < 8 && j != track ==> final(self).tracks@[j] == old(self).tracks@[j]
            }),
            !(track < 8 && step < old(self).num_steps) ==> final(self).tracks@ == old(
                self,
            ).tracks@,
    {
        self.set_track_step(track, step, 0);
    }

    /// Raise a step's trigger probability by 25, capped at 100.
    pub fn step_prob_up(&mut self, track: usize, step: usize)
        requires
            old(self).wf(),
        ensures
            final(self).wf(),
            final(self).same_shell(*old(self)),
            track < 8 && step < old(self).num_steps ==> ({
                let was = old(self).tracks@[track as int].steps@[step as int];
                let now = if was + 25 >= 100 { 100u8 } else { (was + 25) as u8 };
                &&& final(self).tracks@[track as int].steps@ == old(self).tracks@[
                    track as int].steps@.update(step as int, now)
                &&& DrumMachine::same_track_shell(
                    final(self).tracks@[track as int],
                    old(self).tracks@[track as int],
                )
                &&& forall|j: int|
                    0 <= j < 8 && j != track ==> final(self).tracks@[j] == old(self).tracks@[j]
            }),
            !(track < 8 && step < old(self).num_steps) ==> final(self).tracks@ == old(
                self,
            ).tracks@,
    {
        if track < self.tracks.len() && step < self.num_steps {
            proof {
                assert(self.tracks@[track as int].wf(self.num_steps));
            }
            let was: u8 = self.tracks[track].steps[step];
            let now: u8 = if was >= 75 {
                100
            } else {
                was + 25
            };
            self.set_track_step(track, step, now);
        }
    }

    /// Lower a step's trigger probability by 25; 25 or less turns it off.
    pub fn step_prob_down(&mut self, track: usize, step: usize)
        requires
            old(self).wf(),
        ensures
            final(self).wf(),
            final(self).same_shell(*old(self)),
            track < 8 && step < old(self).num_steps ==> ({
                let was = old(self).tracks@[track as int].steps@[step as int];
                let now = if was <= 25 { 0u8 } else { (was - 25) as u8 };
                &&& final(self).tracks@[track as int].steps@ == old(self).tracks@[
                    track as int].steps@.update(step as int, now)
                &&& DrumMachine::same_track_shell(
                    final(self).tracks@[track as int],
                    old(self).tracks@[track as int],
                )
                &&& forall|j: int|
                    0 <= j < 8 && j != track ==> final(self).tracks@[j] == old(self).tracks@[j]
            }),
            !(track < 8 && step < old(self).num_steps) ==> final(self).tracks@ == old(
                self,
            ).tracks@,
    {
        if track < self.tracks.len() && step < self.num_steps {
            proof {
                assert(self.tracks@[track as int].wf(self.num_steps));
            }
            let was: u8 = self.tracks[track].steps[step];
            let now: u8 = if was <= 25 {
                0
            } else {
                was - 25
            };
            self.set_track_step(track, step, now);
        }
    }

    /// Mute or unmute a track; an out-of-range index is a no-op.
    pub fn toggle_mute(&mut self, track: usize)
        requires
            old(self).wf(),
        ensures
            final(self).wf(),
            final(self).same_shell(*old(self)),
            track < 8 ==> ({
                &&& final(self).tracks@[track as int].muted == !old(self).tracks@[
                    track as int].muted
                &&& final(self).tracks@[track as int].kind == old(self).tracks@[track as int].kind
                &&& final(self).tracks@[track as int].volume_m == old(self).tracks@[
                    track as int].volume_m
                &&& final(self).tracks@[track as int].steps@ == old(self).tracks@[
                    track as int].steps@
                &&& forall|j: int|
                    0 <= j < 8 && j != track ==> final(self).tracks@[j] == old(self).tracks@[j]
            }),
            track >= 8 ==> final(self).tracks@ == old(self).tracks@,
    {
        if track < self.tracks.len() {
            let mut t: DrumTrack = self.tracks.remove(track);
            t.muted = !t.muted;
            self.tracks.insert(track, t);
            proof {
                assert(self.tracks@ =~= old(self).tracks@.update(
                    track as int,
                    self.tracks@[track as int],
                ));
                assert forall|i: int| 0 <= i < 8 implies #[trigger] self.tracks@[i].wf(
                    self.num_steps,
                ) by {
                    assert(old(self).tracks@[i].wf(old(self).num_steps));
                }
            }
        }
    }

    /// Raise a track's volume one notch (a twentieth of full scale).
    pub fn track_volume_up(&mut self, track: usize)
        requires
            old(self).wf(),
        ensures
            final(self).wf(),
            final(self).same_shell(*old(self)),
            track < 8 ==> ({
                let was = old(self).tracks@[track as int].volume_m;
                &&& final(self).tracks@[track as int].volume_m == (if was + 50 >= 1000 {
                    1000u32
                } else {
                    (was + 50) as u32
                })
                &&& final(self).tracks@[track as int].kind == old(self).tracks@[track as int].kind
                &&& final(self).tracks@[track as int].muted == old(self).tracks@[
                    track as int].muted
                &&& final(self).tracks@[track as int].steps@ == old(self).tracks@[
                    track as int].steps@
                &&& forall|j: int|
                    0 <= j < 8 && j != track ==> final(self).tracks@[j] == old(self).tracks@[j]
            }),
            track >= 8 ==> final(self).tracks@ == old(self).tracks@,
    {
        if track < self.tracks.len() {
            let mut t: DrumTrack = self.tracks.remove(track);
            t.volume_m = if t.volume_m >= 950 {
                1000
            } else {
                t.volume_m + 50
            };
            self.tracks.insert(track, t);
            proof {
                assert(self.tracks@ =~= old(self).tracks@.update(
                    track as int,
                    self.tracks@[track as int],
                ));
                assert forall|i: int| 0 <= i < 8 implies #[trigger] self.tracks@[i].wf(
                    self.num_steps,
                ) by {
                    assert(old(self).tracks@[i].wf(old(self).num_steps));
                }
            }
        }
    }

    /// Lower a track's volume one notch, stopping at silence.
    pub fn track_volume_down(&mut self, track: usize)
        requires
            old(self).wf(),
        ensures
            final(self).wf(),
            final(self).same_shell(*old(self)),
            track < 8 ==> ({
                let was = old(self).tracks@[track as int].volume_m;
                &&& final(self).tracks@[track as int].volume_m == (if was <= 50 {
                    0u32
                } else {
                    (was - 50) as u32
                })
                &&& final(self).tracks@[track as int].kind == old(self).tracks@[track as int].kind
                &&& final(self).tracks@[track as int].muted == old(self).tracks@[
                    track as int].muted
                &&& final(self).tracks@[track as int].steps@ == old(self).tracks@[
                    track as int].steps@
                &&& forall|j: int|
                    0 <= j < 8 && j != track ==> final(self).tracks@[j] == old(self).tracks@[j]
            }),
            track >= 8 ==> final(self).tracks@ == old(self).tracks@,
    {
        if track < self.tracks.len() {
            let mut t: DrumTrack = self.tracks.remove(track);
            t.volume_m = if t.volume_m <= 50 {
                0
            } else {
                t.volume_m - 50
            };
            self.tracks.insert(track, t);
            proof {
                assert(self.tracks@ =~= old(self).tracks@.update(
                    track as int,
                    self.tracks@[track as int],
                ));
                assert forall|i: int| 0 <= i < 8 implies #[trigger] self.tracks@[i].wf(
                    self.num_steps,
                ) by {
                    assert(old(self).tracks@[i].wf(old(self).num_steps));
                }
            }
        }
    }

    /// Raise the swing one notch, up to the maximum of half a step.
    pub fn swing_up(&mut self)
        requires
            old(self).wf(),
        ensures
            final(self).wf(),
            final(self).swing_m == (if old(self).swing_m + 50 >= 500 {
                500u32
            } else {
                (old(self).swing_m + 50) as u32
            }),
            final(self).tracks@ == old(self).tracks@,
            final(self).num_steps == old(self).num_steps,
            final(self).current_step == old(self).current_step,
            final(self).playing == old(self).playing,
            final(self).sample_rate == old(self).sample_rate,
            final(self).voices@ == old(self).voices@,
            final(self).seed == old(self).seed,
            final(self).prob_seed == old(self).prob_seed,
            final(self).kick_triggered == old(self).kick_triggered,
    {
        self.swing_m = if self.swing_m >= 450 {
            500
        } else {
            self.swing_m + 50
        };
    }

    /// Lower the swing one notch, down to straight timing.
    pub fn swing_down(&mut self)
        requires
            old(self).wf(),
        ensures
            final(self).wf(),
            final(self).swing_m == (if old(self).swing_m <= 50 {
                0u32
            } else {
                (old(self).swing_m - 50) as u32
            }),
            final(self).tracks@ == old(self).tracks@,
            final(self).num_steps == old(self).num_steps,
            final(self).current_step == old(self).current_step,
            final(self).playing == old(self).playing,
            final(self).sample_rate == old(self).sample_rate,
            final(self).voices@ == old(self).voices@,
            final(self).seed == old(self).seed,
            final(self).prob_seed == old(self).prob_seed,
            final(self).kick_triggered == old(self).kick_triggered,
    {
        self.swing_m = if self.swing_m <= 50 {
            0
        } else {
            self.swing_m - 50
        };
    }

    /// Start or stop playback; stopping silences every sounding voice.
    pub fn toggle_play(&mut self)
        requires
            old(self).wf(),
        ensures
            final(self).wf(),
            final(self).playing == !old(self).playing,
            final(self).voices@ == (if old(self).playing {
                Seq::<DrumVoice>::empty()
            } else {
                old(self).voices@
            }),
            final(self).tracks@ == old(self).tracks@,
            final(self).num_steps == old(self).num_steps,
            final(self).current_step == old(self).current_step,
            final(self).swing_m == old(self).swing_m,
            final(self).sample_rate == old(self).sample_rate,
            final(self).seed == old(self).seed,
            final(self).prob_seed == old(self).prob_seed,
            final(self).kick_triggered == old(self).kick_triggered,
    {
        self.playing = !self.playing;
        if !self.playing {
            self.voices = Vec::new();
            proof {
                assert(self.voices@ =~= Seq::<DrumVoice>::empty());
            }
        }
    }

    /// Cycle the pattern length 8 → 16 → 24 → 32 → 8, padding every track's
    /// new slots with zero probability and rewinding an out-of-range cursor.
    pub fn cycle_num_steps(&mut self)
        requires
            old(self).wf(),
        ensures
            final(self).wf(),
            final(self).num_steps == crate::sequencer::Sequencer::next_num_steps(
                old(self).num_steps,
            ),
            forall|j: int|
                0 <= j < 8 ==> DrumMachine::same_track_shell(
                    #[trigger] final(self).tracks@[j],
                    old(self).tracks@[j],
                ),
            forall|j: int, s: int|
                0 <= j < 8 && 0 <= s < final(self).num_steps ==> final(self).tracks@[j].steps@[s]
                    == (if s < old(self).num_steps {
                    old(self).tracks@[j].steps@[s]
                } else {
                    0u8
                }),
            final(self).current_step == (if old(self).current_step < final(self).num_steps {
                old(self).current_step
            } else {
                0
            }),
            final(self).playing == old(self).playing,
            final(self).swing_m == old(self).swing_m,
            final(self).sample_rate == old(self).sample_rate,
            final(self).voices@ == old(self).voices@,
            final(self).seed == old(self).seed,
            final(self).prob_seed == old(self).prob_seed,
            final(self).kick_triggered == old(self).kick_triggered,
    {
        let next: usize = match self.num_steps {
            8 => 16,
            16 => 24,
            24 => 32,
            _ => 8,
        };
        let mut new_tracks: Vec<DrumTrack> = Vec::new();
        let mut ti: usize = 0;
        while ti < 8
            invariant
                ti <= 8,
                new_tracks@.len() == ti,
                *self == *old(self),
                old(self).wf(),
                8 <= next <= 32,
                forall|j: int|
                    0 <= j < ti ==> DrumMachine::same_track_shell(
                        #[trigger] new_tracks@[j],
                        old(self).tracks@[j],
                    ),
                forall|j: int| 0 <= j < ti ==> (#[trigger] new_tracks@[j]).wf(next),
                forall|j: int, s: int|
                    0 <= j < ti && 0 <= s < next ==> #[trigger] new_tracks@[j].steps@[s] == (
                    if s < old(self).num_steps {
                        old(self).tracks@[j].steps@[s]
                    } else {
                        0u8
                    }),
            decreases 8 - ti,
        {
            let mut steps: Vec<u8> = Vec::new();
            let mut s: usize = 0;
            while s < next
                invariant
                    s <= next,
                    steps@.len() == s,
                    *self == *old(self),
                    old(self).wf(),
                    ti < 8,
                    forall|i: int|
                        0 <= i < s ==> #[trigger] steps@[i] == (if i < old(self).num_steps {
                            old(self).tracks@[ti as int].steps@[i]
                        } else {
                            0u8
                        }),
                decreases next - s,
            {
                if s < self.num_steps {
                    proof {
                        assert(old(self).tracks@[ti as int].wf(old(self).num_steps));
                    }
                    steps.push(self.tracks[ti].steps[s]);
                } else {
                    steps.push(0);
                }
                s = s + 1;
            }
            proof {
                assert(old(self).tracks@[ti as int].wf(old(self).num_steps));
            }
            new_tracks.push(
                DrumTrack {
                    kind: self.tracks[ti].kind,
                    steps,
                    muted: self.tracks[ti].muted,
                    volume_m: self.tracks[ti].volume_m,
                },
            );
            ti = ti + 1;
        }
        self.tracks = new_tracks;
        self.num_steps = next;
        if self.current_step >= next {
            self.current_step = 0;
        }
    }
}

// ── Euclidean rhythm ──────────────────────────────────────────────────────

/// Whether step `i` is active in the Euclidean pattern of `k` pulses over `n`
/// steps: the fixed-increment bucket overflows at step `i` exactly when the
/// running total `(i+1)*k` crosses a multiple of `n`.
pub open spec fn euclid_active(i: int, k: int, n: int) -> bool {
    (i * k) % n + k >= n
}

/// How many steps of a pattern are active (probability above zero).
pub open spec fn count_active(s: Seq<u8>) -> int
    decreases s.len(),
{
    if s.len() == 0 {
        0
    } else {
        count_active(s.drop_last()) + if s.last() > 0 {
            1int
        } else {
            0int
        }
    }
}

impl DrumMachine {
    /// Fill a track with the maximally even Euclidean pattern of `k` active
    /// steps (each at full probability) over the current pattern length; `k`
    /// is capped at the pattern length, and exactly `min(k, n)` steps end up
    /// active.
    pub fn euclidean_fill(&mut self, track: usize, k: usize)
        requires
            old(self).wf(),
        ensures
            final(self).wf(),
            final(self).same_shell(*old(self)),
            track < 8 ==> ({
                let n = old(self).num_steps as int;
                let kk = if k > old(self).num_steps {
                    n
                } else {
                    k as int
                };
                &&& final(self).tracks@[track as int].steps@.len() == n
                &&& forall|i: int|
                    0 <= i < n ==> final(self).tracks@[track as int].steps@[i] == (
                    if euclid_active(i, kk, n) {
                        100u8
                    } else {
                        0u8
                    })
                &&& count_active(final(self).tracks@[track as int].steps@) == kk
                &&& DrumMachine::same_track_shell(
                    final(self).tracks@[track as int],
                    old(self).tracks@[track as int],
                )
                &&& forall|j: int|
                    0 <= j < 8 && j != track ==> final(self).tracks@[j] == old(self).tracks@[j]
            }),
            track >= 8 ==> final(self).tracks@ == old(self).tracks@,
    {
        if track >= self.tracks.len() {
            return ;
        }
        let n: usize = self.num_steps;
        let kk: usize = if k > n {
            n
        } else {
            k
        };
        let mut steps: Vec<u8> = Vec::new();
        let mut bucket: usize = 0;
        let mut i: usize = 0;
        proof {
            assert(0 * kk == 0) by (nonlinear_arith);
            assert(0int % (n as int) == 0) by (nonlinear_arith)
                requires
                    n >= 1,
            ;
            assert(0int / (n as int) == 0) by (nonlinear_arith)
                requires
                    n >= 1,
            ;
        }
        while i < n
            invariant
                i <= n,
                1 <= n <= 32,
                0 <= kk <= n,
                steps@.len() == i,
                bucket == (i * kk) % (n as int),
                count_active(steps@) == (i * kk) / (n as int),
                forall|j: int|
                    0 <= j < i ==> steps@[j] == (if euclid_active(j, kk as int, n as int) {
                        100u8
                    } else {
                        0u8
                    }),
            decreases n - i,
        {
            proof {
                let ni = n as int;
                let q = (i * kk) / ni;
                lemma_fundamental_div_mod(i * kk, ni);
                assert((i + 1) * kk == i * kk + kk) by (nonlinear_arith);
                assert(ni * q == q * ni) by (nonlinear_arith);
                assert((q + 1) * ni == q * ni + ni) by (nonlinear_arith);
                if bucket + kk >= n {
                    assert((i + 1) * kk == (q + 1) * ni + (bucket + kk - ni));
                    lemma_fundamental_div_mod_converse((i + 1) * kk, ni, q + 1, bucket + kk - ni);
                } else {
                    assert((i + 1) * kk == q * ni + (bucket + kk));
                    lemma_fundamental_div_mod_converse((i + 1) * kk, ni, q, bucket + kk);
                }
            }
            let ghost prev = steps@;
            bucket = bucket + kk;
            if bucket >= n {
                bucket = bucket - n;
                steps.push(100);
            } else {
                steps.push(0);
            }
            proof {
                assert(steps@.drop_last() =~= prev);
            }
            i = i + 1;
        }
        proof {
            assert(n * kk == kk * (n as int)) by (nonlinear_arith);
            lemma_fundamental_div_mod_converse(n * kk, n as int, kk as int, 0);
        }
        let mut t: DrumTrack = self.tracks.remove(track);
        t.steps = steps;
        self.tracks.insert(track, t);
        proof {
            assert(self.tracks@ =~= old(self).tracks@.update(
                track as int,
                self.tracks@[track as int],
            ));
            assert forall|j: int| 0 <= j < 8 implies #[trigger] self.tracks@[j].wf(
                self.num_steps,
            ) by {
                assert(old(self).tracks@[j].wf(old(self).num_steps));
            }
        }
    }

    /// Immediately trigger a drum track (live preview), bypassing sequencing
    /// and probability. Fully polyphonic: no sounding voice is stopped, except
    /// that triggering the closed hat chokes any ringing open hat.
    pub fn trigger_now(&mut self, track_idx: usize)
        requires
            old(self).wf(),
        ensures
            final(self).wf(),
            final(self).tracks@ == old(self).tracks@,
            final(self).num_steps == old(self).num_steps,
            final(self).current_step == old(self).current_step,
            final(self).playing == old(self).playing,
            final(self).swing_m == old(self).swing_m,
            final(self).sample_rate == old(self).sample_rate,
            final(self).prob_seed == old(self).prob_seed,
            final(self).kick_triggered == old(self).kick_triggered,
            track_idx < 8 && !old(self).tracks@[track_idx as int].muted ==> ({
                let t = old(self).tracks@[track_idx as int];
                let base = if t.kind == DrumKind::ClosedHat {
                    drop_open_hats(old(self).voices@)
                } else {
                    old(self).voices@
                };
                let ns = seed_step_spec(old(self).seed);
                &&& final(self).seed == ns
                &&& final(self).voices@ == base.push(
                    spawn_voice(t.kind, old(self).sample_rate, ns, t.volume_m),
                )
            }),
            !(track_idx < 8 && !old(self).tracks@[track_idx as int].muted) ==> final(self).voices@
                == old(self).voices@ && final(self).seed == old(self).seed,
    {
        if track_idx >= self.tracks.len() {
            return ;
        }
        proof {
            assert(self.tracks@[track_idx as int].wf(self.num_steps));
        }
        let kind: DrumKind = self.tracks[track_idx].kind;
        let muted: bool = self.tracks[track_idx].muted;
        let volume_m: u32 = self.tracks[track_idx].volume_m;
        if muted {
            return ;
        }
        if kind == DrumKind::ClosedHat {
            self.choke_open_hats();
        }
        self.seed = seed_step(self.seed);
        let v: DrumVoice = DrumVoice::new(kind, self.sample_rate, self.seed, volume_m);
        self.voices.push(v);
    }

    /// Remove every sounding open-hat voice (the hi-hat choke).
    fn choke_open_hats(&mut self)
        requires
            old(self).wf(),
        ensures
            final(self).wf(),
            final(self).voices@ == drop_open_hats(old(self).voices@),
            final(self).tracks@ == old(self).tracks@,
            final(self).num_steps == old(self).num_steps,
            final(self).current_step == old(self).current_step,
            final(self).playing == old(self).playing,
            final(self).swing_m == old(self).swing_m,
            final(self).sample_rate == old(self).sample_rate,
            final(self).seed == old(self).seed,
            final(self).prob_seed == old(self).prob_seed,
            final(self).kick_triggered == old(self).kick_triggered,
    {
        let mut kept: Vec<DrumVoice> = Vec::new();
        let mut i: usize = 0;
        while i < self.voices.len()
            invariant
                i <= self.voices@.len(),
                *self == *old(self),
                old(self).wf(),
                kept@ == drop_open_hats(self.voices@.subrange(0, i as int)),
                forall|j: int| 0 <= j < kept@.len() ==> #[trigger] kept@[j].wf(),
            decreases self.voices@.len() - i,
        {
            proof {
                assert(self.voices@[i as int].wf());
                assert(self.voices@.subrange(0, i + 1).drop_last() =~= self.voices@.subrange(
                    0,
                    i as int,
                ));
                assert(self.voices@.subrange(0, i + 1).last() == self.voices@[i as int]);
            }
            let v: DrumVoice = self.voices[i];
            if !(v.kind == DrumKind::OpenHat) {
                kept.push(v);
            }
            i = i + 1;
        }
        proof {
            assert(self.voices@.subrange(0, self.voices@.len() as int) =~= self.voices@);
        }
        self.voices = kept;
    }
}

// ── Step firing ───────────────────────────────────────────────────────────

/// Whether an unmuted closed-hat track is set to fire at this step.
pub open spec fn closed_hat_fires(tracks: Seq<DrumTrack>, step: int) -> bool {
    exists|j: int|
        0 <= j < tracks.len() && (#[trigger] tracks[j]).kind == DrumKind::ClosedHat
            && !tracks[j].muted && tracks[j].steps@[step] > 0
}

/// The pool, seed stream, probability stream and kick flag after the first
/// `i` tracks have been given their chance to fire at `step`. A track with a
/// zero step or a mute flag is skipped outright; a probability below 100
/// costs one roll of the probability stream and fires only if the roll is
/// under it; a firing track advances the trigger-seed stream and appends a
/// freshly seeded voice.
pub open spec fn fire_prefix(
    tracks: Seq<DrumTrack>,
    step: int,
    sr: u32,
    i: int,
    vs0: Seq<DrumVoice>,
    seed0: u32,
    pseed0: u32,
) -> (Seq<DrumVoice>, u32, u32, bool)
    decreases i,
{
    if i <= 0 {
        (vs0, seed0, pseed0, false)
    } else {
        let prev = fire_prefix(tracks, step, sr, i - 1, vs0, seed0, pseed0);
        let t = tracks[i - 1];
        let prob = t.steps@[step];
        if t.muted || prob == 0 {
            prev
        } else if prob < 100 {
            let np = xorshift32_spec(prev.2);
            if np % 100 >= prob {
                (prev.0, prev.1, np, prev.3)
            } else {
                let ns = seed_step_spec(prev.1);
                (
                    prev.0.push(spawn_voice(t.kind, sr, ns, t.volume_m)),
                    ns,
                    np,
                    prev.3 || t.kind == DrumKind::Kick,
                )
            }
        } else {
            let ns = seed_step_spec(prev.1);
            (
                prev.0.push(spawn_voice(t.kind, sr, ns, t.volume_m)),
                ns,
                prev.2,
                prev.3 || t.kind == DrumKind::Kick,
            )
        }
    }
}

/// Everything a firing step does to the machine: the hi-hat choke first,
/// then every track in order.
pub open spec fn fire_result(dm: DrumMachine, step: int) -> (Seq<DrumVoice>, u32, u32, bool) {
    let base = if closed_hat_fires(dm.tracks@, step) {
        drop_open_hats(dm.voices@)
    } else {
        dm.voices@
    };
    fire_prefix(dm.tracks@, step, dm.sample_rate, 8, base, dm.seed, dm.prob_seed)
}

/// How far into its step window a step fires: odd-indexed steps are delayed
/// by the swing fraction of one step, even steps fire on the boundary.
pub open spec fn swing_offset_spec(swing_m: u32, sps: int) -> int {
    (swing_m * sps + 500) / 1000
}

/// Swing delay in samples for odd-indexed steps.
pub fn swing_offset(swing_m: u32, sps: u64) -> (off: u64)
    requires
        swing_m <= 500,
        sps <= 130_000_000,
    ensures
        off == swing_offset_spec(swing_m, sps as int),
{
    proof {
        assert(swing_m as int * sps as int <= 500 * 130_000_000) by (nonlinear_arith)
            requires
                swing_m <= 500,
                sps <= 130_000_000,
        ;
    }
    (swing_m as u64 * sps + 500) / 1000
}

/// Whether the machine fires at this clock value: it is playing, and the
/// clock sits exactly at the step boundary plus the step's swing delay.
pub open spec fn fires_now(dm: DrumMachine, bpm: u32, clock: u64) -> bool {
    let sps = samples_per_step_spec(dm.sample_rate, bpm);
    let idx = (clock as int / sps) % (dm.num_steps as int);
    let off = if idx % 2 == 1 {
        swing_offset_spec(dm.swing_m, sps)
    } else {
        0
    };
    dm.playing && clock as int % sps == off
}

impl DrumMachine {
    /// Give every track its chance to fire at the current step.
    fn fire_step(&mut self)
        requires
            old(self).wf(),
        ensures
            final(self).wf(),
            final(self).tracks@ == old(self).tracks@,
            final(self).num_steps == old(self).num_steps,
            final(self).current_step == old(self).current_step,
            final(self).playing == old(self).playing,
            final(self).swing_m == old(self).swing_m,
            final(self).sample_rate == old(self).sample_rate,
            ({
                let r = fire_result(*old(self), old(self).current_step as int);
                &&& final(self).voices@ == r.0
                &&& final(self).seed == r.1
                &&& final(self).prob_seed == r.2
                &&& final(self).kick_triggered == (old(self).kick_triggered || r.3)
            }),
    {
        let step: usize = self.current_step;

        let mut closed_fires: bool = false;
        let mut j: usize = 0;
        while j < 8
            invariant
                j <= 8,
                *self == *old(self),
                old(self).wf(),
                step == old(self).current_step,
                closed_fires ==> closed_hat_fires(self.tracks@, step as int),
                !closed_fires ==> forall|i: int|
                    0 <= i < j ==> !((#[trigger] self.tracks@[i]).kind == DrumKind::ClosedHat
                        && !self.tracks@[i].muted && self.tracks@[i].steps@[step as int] > 0),
            decreases 8 - j,
        {
            proof {
                assert(self.tracks@[j as int].wf(self.num_steps));
            }
            let t_kind: DrumKind = self.tracks[j].kind;
            let t_muted: bool = self.tracks[j].muted;
            let t_prob: u8 = self.tracks[j].steps[step];
            if t_kind == DrumKind::ClosedHat && !t_muted && t_prob > 0 {
                closed_fires = true;
            }
            j = j + 1;
        }
        if closed_fires {
            self.choke_open_hats();
        }

        let ghost base = self.voices@;
        let ghost dm0 = *old(self);

        let mut i: usize = 0;
        while i < 8
            invariant
                i <= 8,
                self.wf(),
                self.tracks@ == dm0.tracks@,
                self.num_steps == dm0.num_steps,
                self.current_step == dm0.current_step,
                self.playing == dm0.playing,
                self.swing_m == dm0.swing_m,
                self.sample_rate == dm0.sample_rate,
                step == dm0.current_step,
                dm0.wf(),
                ({
                    let r = fire_prefix(
                        dm0.tracks@,
                        step as int,
                        dm0.sample_rate,
                        i as int,
                        base,
                        dm0.seed,
                        dm0.prob_seed,
                    );
                    &&& self.voices@ == r.0
                    &&& self.seed == r.1
                    &&& self.prob_seed == r.2
                    &&& self.kick_triggered == (dm0.kick_triggered || r.3)
                }),
            decreases 8 - i,
        {
            proof {
                assert(self.tracks@[i as int].wf(self.num_steps));
            }
            let t_kind: DrumKind = self.tracks[i].kind;
            let t_muted: bool = self.tracks[i].muted;
            let t_vol: u32 = self.tracks[i].volume_m;
            let prob: u8 = self.tracks[i].steps[step];
            if !t_muted && prob != 0 {
                let mut fire: bool = true;
                if prob < 100 {
                    self.prob_seed = xorshift32(self.prob_seed);
                    let roll: u8 = (self.prob_seed % 100) as u8;
                    if roll >= prob {
                        fire = false;
                    }
                }
                if fire {
                    self.seed = seed_step(self.seed);
                    if t_kind == DrumKind::Kick {
                        self.kick_triggered = true;
                    }
                    let v: DrumVoice = DrumVoice::new(t_kind, self.sample_rate, self.seed, t_vol);
                    self.voices.push(v);
                }
            }
            i = i + 1;
        }
    }

    /// One sample of the drum machine's control step, driven by the shared
    /// master clock: move the cursor, fire the step when the clock sits on
    /// its (swing-adjusted) firing instant, then advance every sounding voice
    /// one sample, dropping those that have run their course. The kick flag
    /// reports exactly whether a kick fired on this sample.
    pub fn tick(&mut self, bpm: u32, clock: u64)
        requires
            old(self).wf(),
            1 <= bpm <= 1000,
        ensures
            final(self).wf(),
            final(self).tracks@ == old(self).tracks@,
            final(self).num_steps == old(self).num_steps,
            final(self).playing == old(self).playing,
            final(self).swing_m == old(self).swing_m,
            final(self).sample_rate == old(self).sample_rate,
            final(self).current_step == (clock as int / samples_per_step_spec(
                old(self).sample_rate,
                bpm,
            )) % (old(self).num_steps as int),
            ({
                let fired = fires_now(*old(self), bpm, clock);
                let idx = (clock as int / samples_per_step_spec(old(self).sample_rate, bpm)) % (
                old(self).num_steps as int);
                let r = fire_result(
                    DrumMachine { current_step: idx as usize, ..*old(self) },
                    idx,
                );
                &&& final(self).voices@ == advance_prune(
                    if fired {
                        r.0
                    } else {
                        old(self).voices@
                    },
                )
                &&& final(self).seed == (if fired {
                    r.1
                } else {
                    old(self).seed
                })
                &&& final(self).prob_seed == (if fired {
                    r.2
                } else {
                    old(self).prob_seed
                })
                &&& final(self).kick_triggered == (fired && r.3)
            }),
    {
        self.kick_triggered = false;
        let sps: u64 = samples_per_step(self.sample_rate, bpm);
        let step_idx: usize = ((clock / sps) % (self.num_steps as u64)) as usize;
        let phase_in: u64 = clock % sps;
        let swing_off: u64 = if step_idx % 2 == 1 {
            swing_offset(self.swing_m, sps)
        } else {
            0
        };

        self.current_step = step_idx;

        if self.playing && phase_in == swing_off {
            self.fire_step();
        }

        let mut advanced: Vec<DrumVoice> = Vec::new();
        let ghost pool = self.voices@;
        let mut i: usize = 0;
        while i < self.voices.len()
            invariant
                i <= self.voices@.len(),
                self.voices@ == pool,
                forall|j: int| 0 <= j < pool.len() ==> #[trigger] pool[j].wf(),
                advanced@ == advance_prune(pool.subrange(0, i as int)),
                forall|j: int| 0 <= j < advanced@.len() ==> #[trigger] advanced@[j].wf(),
            decreases self.voices@.len() - i,
        {
            proof {
                assert(pool[i as int].wf());
                assert(pool.subrange(0, i + 1).drop_last() =~= pool.subrange(0, i as int));
                assert(pool.subrange(0, i + 1).last() == pool[i as int]);
            }
            let v: DrumVoice = self.voices[i];
            if v.sample_pos + 1 < v.dur_samples {
                advanced.push(
                    DrumVoice {
                        kind: v.kind,
                        sample_pos: v.sample_pos + 1,
                        dur_samples: v.dur_samples,
                        noise: v.noise,
                        volume_m: v.volume_m,
                    },
                );
            }
            i = i + 1;
        }
        proof {
            assert(pool.subrange(0, pool.len() as int) =~= pool);
        }
        self.voices = advanced;
    }
}

} // verus!
