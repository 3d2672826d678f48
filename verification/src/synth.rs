//! Waveform selection, the ADSR envelope state machine, melodic voices,
//! the per-instrument send-routing matrix, and the engine aggregate.

use vstd::prelude::*;
use vstd::arithmetic::div_mod::*;
use crate::sequencer::StepEvent;

verus! {

/// Envelope levels are carried in millionths: `LEVEL_ONE` is full level 1.0.
pub const LEVEL_ONE: u32 = 1_000_000;

// ── Waveform ──────────────────────────────────────────────────────────────

#[derive(Clone, Copy, Debug, PartialEq, Eq, Structural)]
pub enum WaveType {
    Sine,
    Square,
    Sawtooth,
    Triangle,
}

impl WaveType {
    /// Cycle to the next waveform: Sine → Square → Sawtooth → Triangle → Sine.
    pub fn next(self) -> (r: Self)
        ensures
            r == (match self {
                WaveType::Sine => WaveType::Square,
                WaveType::Square => WaveType::Sawtooth,
                WaveType::Sawtooth => WaveType::Triangle,
                WaveType::Triangle => WaveType::Sine,
            }),
    {
        match self {
            WaveType::Sine => WaveType::Square,
            WaveType::Square => WaveType::Sawtooth,
            WaveType::Sawtooth => WaveType::Triangle,
            WaveType::Triangle => WaveType::Sine,
        }
    }

    /// Display name of the waveform.
    pub fn name(self) -> (r: &'static str)
        ensures
            r@ == (match self {
                WaveType::Sine => "Sine"@,
                WaveType::Square => "Square"@,
                WaveType::Sawtooth => "Sawtooth"@,
                WaveType::Triangle => "Triangle"@,
            }),
    {
        match self {
            WaveType::Sine => "Sine",
            WaveType::Square => "Square",
            WaveType::Sawtooth => "Sawtooth",
            WaveType::Triangle => "Triangle",
        }
    }

    /// Position of this waveform in the persisted order.
    pub open spec fn index_spec(self) -> int {
        match self {
            WaveType::Sine => 0,
            WaveType::Square => 1,
            WaveType::Sawtooth => 2,
            WaveType::Triangle => 3,
        }
    }

    pub fn index(self) -> (i: u8)
        ensures
            i == self.index_spec(),
    {
        match self {
            WaveType::Sine => 0,
            WaveType::Square => 1,
            WaveType::Sawtooth => 2,
            WaveType::Triangle => 3,
        }
    }

    /// The waveform at a persisted position (out of range falls back to Sine).
    pub open spec fn from_index_spec(i: int) -> WaveType {
        if i == 1 {
            WaveType::Square
        } else if i == 2 {
            WaveType::Sawtooth
        } else if i == 3 {
            WaveType::Triangle
        } else {
            WaveType::Sine
        }
    }

    pub fn from_index(i: u8) -> (w: WaveType)
        ensures
            w == WaveType::from_index_spec(i as int),
    {
        match i {
            1 => WaveType::Square,
            2 => WaveType::Sawtooth,
            3 => WaveType::Triangle,
            _ => WaveType::Sine,
        }
    }
}

// ── ADSR envelope ─────────────────────────────────────────────────────────

#[derive(Clone, Copy, Debug, PartialEq, Eq, Structural)]
pub enum EnvelopeStage {
    Attack,
    Decay,
    Sustain,
    Release,
    Off,
}

/// ADSR envelope timing: stage lengths in milliseconds and the sustain
/// plateau as a per-mille ratio of full level.
#[derive(Clone, Copy, Debug, PartialEq, Eq, Structural)]
pub struct EnvParams {
    pub attack_ms: u32,
    pub decay_ms: u32,
    pub sustain_m: u32,
    pub release_ms: u32,
}

impl EnvParams {
    pub open spec fn wf(self) -> bool {
        &&& self.attack_ms <= 60_000
        &&& self.decay_ms <= 60_000
        &&& self.release_ms <= 60_000
        &&& self.sustain_m <= 1000
    }

    /// Default envelope: 10 ms attack, 100 ms decay, sustain 0.7, 300 ms release.
    pub fn new() -> (p: EnvParams)
        ensures
            p == (EnvParams { attack_ms: 10, decay_ms: 100, sustain_m: 700, release_ms: 300 }),
            p.wf(),
    {
        EnvParams { attack_ms: 10, decay_ms: 100, sustain_m: 700, release_ms: 300 }
    }
}

/// A stage length in samples: `ms` milliseconds at `sr` Hz, rounded to nearest.
pub open spec fn env_samples(ms: u32, sr: u32) -> int {
    (ms * sr + 500) / 1000
}

/// Number of whole samples an envelope stage lasts.
pub fn stage_samples(ms: u32, sr: u32) -> (n: u32)
    requires
        ms <= 60_000,
        sr <= 1_000_000,
    ensures
        n == env_samples(ms, sr),
        n <= 60_000_000,
{
    proof {
        assert(ms * sr <= 60_000 * 1_000_000) by (nonlinear_arith)
            requires
                ms <= 60_000,
                sr <= 1_000_000,
        ;
    }
    let wide: u64 = (ms as u64 * sr as u64 + 500) / 1000;
    wide as u32
}

/// Per-sample attack increment: full level spread over the attack, rounded up.
pub open spec fn attack_inc(p: EnvParams, sr: u32) -> int {
    (LEVEL_ONE + env_samples(p.attack_ms, sr) - 1) / env_samples(p.attack_ms, sr)
}

/// Per-sample decay decrement: the drop to the sustain plateau spread over
/// the decay, rounded up.
pub open spec fn decay_dec(p: EnvParams, sr: u32) -> int {
    (LEVEL_ONE - p.sustain_m * 1000 + env_samples(p.decay_ms, sr) - 1) / env_samples(p.decay_ms, sr)
}

/// Per-sample release decrement: the captured release level spread over the
/// release, rounded up.
pub open spec fn release_dec(level: u32, p: EnvParams, sr: u32) -> int {
    (level + env_samples(p.release_ms, sr) - 1) / env_samples(p.release_ms, sr)
}

// ── Melodic voice ─────────────────────────────────────────────────────────

/// One envelope-shaped oscillator instance bound to a note. The oscillator
/// waveform itself is rendered outside the core; the voice carries the note,
/// the envelope stage and the current level in millionths of full scale.
#[derive(Clone, Copy, Debug, PartialEq, Eq, Structural)]
pub struct Voice {
    pub note: u8,
    pub stage: EnvelopeStage,
    pub level: u32,
    pub release_level: u32,
}

impl Voice {
    pub open spec fn wf(self) -> bool {
        &&& self.level <= LEVEL_ONE
        &&& self.release_level <= LEVEL_ONE
    }

    /// A fresh voice starts its attack at level zero.
    pub fn new(note: u8) -> (v: Voice)
        ensures
            v == (Voice { note, stage: EnvelopeStage::Attack, level: 0, release_level: 0 }),
            v.wf(),
    {
        Voice { note, stage: EnvelopeStage::Attack, level: 0, release_level: 0 }
    }

    /// What `release` does: any live stage snapshots the current level and
    /// enters Release; an Off voice is left alone.
    pub open spec fn release_spec(self) -> Voice {
        if self.stage == EnvelopeStage::Off {
            self
        } else {
            Voice { release_level: self.level, stage: EnvelopeStage::Release, ..self }
        }
    }

    /// Begin the release phase, capturing the level reached at this instant.
    pub fn release(&mut self)
        ensures
            *final(self) == old(self).release_spec(),
    {
        if self.stage != EnvelopeStage::Off {
            self.release_level = self.level;
            self.stage = EnvelopeStage::Release;
        }
    }

    pub fn is_finished(&self) -> (r: bool)
        ensures
            r == (self.stage == EnvelopeStage::Off),
    {
        self.stage == EnvelopeStage::Off
    }

    /// One sample of the envelope state machine. A stage of zero length is an
    /// immediate jump to the next stage; otherwise Attack climbs to full level,
    /// Decay falls to the sustain plateau, Release falls from the captured
    /// level to zero and ends in Off.
    pub open spec fn env_step_spec(self, p: EnvParams, sr: u32) -> Voice {
        match self.stage {
            EnvelopeStage::Attack => {
                if env_samples(p.attack_ms, sr) <= 0 {
                    Voice { level: LEVEL_ONE, stage: EnvelopeStage::Decay, ..self }
                } else if self.level + attack_inc(p, sr) >= LEVEL_ONE {
                    Voice { level: LEVEL_ONE, stage: EnvelopeStage::Decay, ..self }
                } else {
                    Voice { level: (self.level + attack_inc(p, sr)) as u32, ..self }
                }
            }
            EnvelopeStage::Decay => {
                if env_samples(p.decay_ms, sr) <= 0 {
                    Voice { level: (p.sustain_m * 1000) as u32, stage: EnvelopeStage::Sustain, ..self }
                } else if self.level <= p.sustain_m * 1000 + decay_dec(p, sr) {
                    Voice { level: (p.sustain_m * 1000) as u32, stage: EnvelopeStage::Sustain, ..self }
                } else {
                    Voice { level: (self.level - decay_dec(p, sr)) as u32, ..self }
                }
            }
            EnvelopeStage::Sustain => Voice { level: (p.sustain_m * 1000) as u32, ..self },
            EnvelopeStage::Release => {
                if env_samples(p.release_ms, sr) <= 0 {
                    Voice { level: 0, stage: EnvelopeStage::Off, ..self }
                } else if self.level <= release_dec(self.release_level, p, sr) {
                    Voice { level: 0, stage: EnvelopeStage::Off, ..self }
                } else {
                    Voice { level: (self.level - release_dec(self.release_level, p, sr)) as u32, ..self }
                }
            }
            EnvelopeStage::Off => self,
        }
    }

    /// Advance the envelope by one sample and return the level that shapes
    /// this sample's amplitude, in millionths of full scale.
    pub fn step_envelope(&mut self, p: &EnvParams, sr: u32) -> (level: u32)
        requires
            old(self).wf(),
            p.wf(),
            1 <= sr <= 1_000_000,
        ensures
            *final(self) == old(self).env_step_spec(*p, sr),
            final(self).wf(),
            level == final(self).level,
    {
        match self.stage {
            EnvelopeStage::Attack => {
                let n: u32 = stage_samples(p.attack_ms, sr);
                if n == 0 {
                    self.level = LEVEL_ONE;
                    self.stage = EnvelopeStage::Decay;
                } else {
                    let inc: u32 = (LEVEL_ONE + n - 1) / n;
                    if self.level + inc >= LEVEL_ONE {
                        self.level = LEVEL_ONE;
                        self.stage = EnvelopeStage::Decay;
                    } else {
                        self.level = self.level + inc;
                    }
                }
            }
            EnvelopeStage::Decay => {
                let n: u32 = stage_samples(p.decay_ms, sr);
                let plateau: u32 = p.sustain_m * 1000;
                if n == 0 {
                    self.level = plateau;
                    self.stage = EnvelopeStage::Sustain;
                } else {
                    let dec: u32 = (LEVEL_ONE - plateau + n - 1) / n;
                    if self.level <= plateau + dec {
                        self.level = plateau;
                        self.stage = EnvelopeStage::Sustain;
                    } else {
                        self.level = self.level - dec;
                    }
                }
            }
            EnvelopeStage::Sustain => {
                self.level = p.sustain_m * 1000;
            }
            EnvelopeStage::Release => {
                let n: u32 = stage_samples(p.release_ms, sr);
                if n == 0 {
                    self.level = 0;
                    self.stage = EnvelopeStage::Off;
                } else {
                    let dec: u32 = (self.release_level + n - 1) / n;
                    if self.level <= dec {
                        self.level = 0;
                        self.stage = EnvelopeStage::Off;
                    } else {
                        self.level = self.level - dec;
                    }
                }
            }
            EnvelopeStage::Off => {}
        }
        self.level
    }
}

// ── Envelope laws ─────────────────────────────────────────────────────────

/// The envelope after `k` samples.
pub open spec fn env_run(v: Voice, p: EnvParams, sr: u32, k: nat) -> Voice
    decreases k,
{
    if k == 0 {
        v
    } else {
        env_run(v, p, sr, (k - 1) as nat).env_step_spec(p, sr)
    }
}

/// A quotient rounded up, multiplied back by the divisor, covers the dividend.
proof fn lemma_ceil_mul(a: int, n: int)
    requires
        a >= 0,
        n >= 1,
    ensures
        n * ((a + n - 1) / n) >= a,
{
    lemma_fundamental_div_mod(a + n - 1, n);
    lemma_mod_bound(a + n - 1, n);
}

/// Off is terminal: a finished voice never changes again.
pub proof fn lemma_off_is_terminal(v: Voice, p: EnvParams, sr: u32, k: nat)
    requires
        v.stage == EnvelopeStage::Off,
    ensures
        env_run(v, p, sr, k) == v,
    decreases k,
{
    if k > 0 {
        lemma_off_is_terminal(v, p, sr, (k - 1) as nat);
    }
}

proof fn lemma_release_progress(v: Voice, p: EnvParams, sr: u32, j: nat)
    requires
        v.wf(),
        p.wf(),
        1 <= sr <= 1_000_000,
        v.stage == EnvelopeStage::Release,
        env_samples(p.release_ms, sr) >= 1,
    ensures
        ({
            let w = env_run(v, p, sr, j);
            ||| (w.stage == EnvelopeStage::Off && w.level == 0 && w.note == v.note)
            ||| (w.stage == EnvelopeStage::Release && w.note == v.note
                && w.release_level == v.release_level && w.wf()
                && w.level <= v.level - j * release_dec(v.release_level, p, sr))
        }),
    decreases j,
{
    if j > 0 {
        lemma_release_progress(v, p, sr, (j - 1) as nat);
        let w = env_run(v, p, sr, (j - 1) as nat);
        let dec = release_dec(v.release_level, p, sr);
        assert(env_run(v, p, sr, j) == w.env_step_spec(p, sr));
        if w.stage == EnvelopeStage::Off {
            lemma_off_is_terminal(w, p, sr, 1);
        } else {
            assert(j * dec == (j - 1) * dec + dec) by (nonlinear_arith);
        }
    }
}

/// The heart of the release guarantee: a releasing voice reaches the Off
/// stage, at level exactly zero, within one release time — that is, within
/// `env_samples(release_ms, sr)` samples (one sample when that is zero) —
/// and by `lemma_off_is_terminal` it stays there.
pub proof fn lemma_release_reaches_off(v: Voice, p: EnvParams, sr: u32)
    requires
        v.wf(),
        p.wf(),
        1 <= sr <= 1_000_000,
        v.stage == EnvelopeStage::Release,
        v.level <= v.release_level,
    ensures
        ({
            let n = if env_samples(p.release_ms, sr) >= 1 {
                env_samples(p.release_ms, sr)
            } else {
                1
            };
            env_run(v, p, sr, n as nat).stage == EnvelopeStage::Off
                && env_run(v, p, sr, n as nat).level == 0
        }),
{
    let rs = env_samples(p.release_ms, sr);
    if rs < 1 {
        assert(env_run(v, p, sr, 1) == env_run(v, p, sr, 0).env_step_spec(p, sr));
    } else {
        let dec = release_dec(v.release_level, p, sr);
        lemma_release_progress(v, p, sr, (rs - 1) as nat);
        lemma_ceil_mul(v.release_level as int, rs);
        let w = env_run(v, p, sr, (rs - 1) as nat);
        if w.stage == EnvelopeStage::Release {
            assert(w.level <= v.release_level - (rs - 1) * dec);
            assert(v.release_level - (rs - 1) * dec <= dec) by {
                assert(rs * dec >= v.release_level);
                assert(rs * dec == (rs - 1) * dec + dec) by (nonlinear_arith);
            }
            assert(env_run(v, p, sr, rs as nat) == w.env_step_spec(p, sr));
        } else {
            lemma_off_is_terminal(w, p, sr, 1);
            assert(env_run(v, p, sr, rs as nat) == w.env_step_spec(p, sr));
        }
    }
}

// ── Per-instrument FX send routing ────────────────────────────────────────

/// Send levels (per-mille of unity) from each instrument bus to each master
/// effect. The dry signal always passes through; routing additionally sends a
/// weighted copy into the effect's wet bus. Buses are numbered 0 (melodic
/// bank 1), 1 (melodic bank 2), 2 (drums); effects 0 (reverb), 1 (delay),
/// 2 (distortion).
pub struct FxRouting {
    pub s1_reverb_m: u32,
    pub s1_delay_m: u32,
    pub s1_dist_m: u32,
    pub s2_reverb_m: u32,
    pub s2_delay_m: u32,
    pub s2_dist_m: u32,
    pub dr_reverb_m: u32,
    pub dr_delay_m: u32,
    pub dr_dist_m: u32,
}

impl FxRouting {
    pub open spec fn wf(self) -> bool {
        &&& self.s1_reverb_m <= 1000
        &&& self.s1_delay_m <= 1000
        &&& self.s1_dist_m <= 1000
        &&& self.s2_reverb_m <= 1000
        &&& self.s2_delay_m <= 1000
        &&& self.s2_dist_m <= 1000
        &&& self.dr_reverb_m <= 1000
        &&& self.dr_delay_m <= 1000
        &&& self.dr_dist_m <= 1000
    }

    /// The send level for a (bus, effect) pair.
    pub open spec fn send_spec(self, bus: int, fx: int) -> u32 {
        if bus == 0 {
            if fx == 0 {
                self.s1_reverb_m
            } else if fx == 1 {
                self.s1_delay_m
            } else {
                self.s1_dist_m
            }
        } else if bus == 1 {
            if fx == 0 {
                self.s2_reverb_m
            } else if fx == 1 {
                self.s2_delay_m
            } else {
                self.s2_dist_m
            }
        } else {
            if fx == 0 {
                self.dr_reverb_m
            } else if fx == 1 {
                self.dr_delay_m
            } else {
                self.dr_dist_m
            }
        }
    }

    /// All sends start at zero: dry-only output.
    pub fn new() -> (r: FxRouting)
        ensures
            r.wf(),
            forall|b: int, f: int| 0 <= b < 3 && 0 <= f < 3 ==> r.send_spec(b, f) == 0,
    {
        FxRouting {
            s1_reverb_m: 0,
            s1_delay_m: 0,
            s1_dist_m: 0,
            s2_reverb_m: 0,
            s2_delay_m: 0,
            s2_dist_m: 0,
            dr_reverb_m: 0,
            dr_delay_m: 0,
            dr_dist_m: 0,
        }
    }

    pub fn send_level(&self, bus: usize, fx: usize) -> (r: u32)
        requires
            bus < 3,
            fx < 3,
        ensures
            r == self.send_spec(bus as int, fx as int),
    {
        match (bus, fx) {
            (0, 0) => self.s1_reverb_m,
            (0, 1) => self.s1_delay_m,
            (0, _) => self.s1_dist_m,
            (1, 0) => self.s2_reverb_m,
            (1, 1) => self.s2_delay_m,
            (1, _) => self.s2_dist_m,
            (_, 0) => self.dr_reverb_m,
            (_, 1) => self.dr_delay_m,
            (_, _) => self.dr_dist_m,
        }
    }

    fn set_send(&mut self, bus: usize, fx: usize, v: u32)
        requires
            old(self).wf(),
            bus < 3,
            fx < 3,
            v <= 1000,
        ensures
            final(self).wf(),
            final(self).send_spec(bus as int, fx as int) == v,
            forall|b: int, f: int|
                0 <= b < 3 && 0 <= f < 3 && !(b == bus && f == fx) ==> final(self).send_spec(b, f)
                    == old(self).send_spec(b, f),
    {
        match (bus, fx) {
            (0, 0) => self.s1_reverb_m = v,
            (0, 1) => self.s1_delay_m = v,
            (0, _) => self.s1_dist_m = v,
            (1, 0) => self.s2_reverb_m = v,
            (1, 1) => self.s2_delay_m = v,
            (1, _) => self.s2_dist_m = v,
            (_, 0) => self.dr_reverb_m = v,
            (_, 1) => self.dr_delay_m = v,
            (_, _) => self.dr_dist_m = v,
        }
    }

    /// Step one send level a twentieth of full scale up or down, clamped to
    /// [0, 1]; an out-of-range pair is a no-op.
    pub fn adjust_send(&mut self, bus: usize, fx: usize, up: bool)
        requires
            old(self).wf(),
        ensures
            final(self).wf(),
            bus < 3 && fx < 3 ==> final(self).send_spec(bus as int, fx as int)
                == crate::effects::step_level_spec(
                old(self).send_spec(bus as int, fx as int),
                up,
                0,
                1000,
                50,
            ),
            forall|b: int, f: int|
                0 <= b < 3 && 0 <= f < 3 && !(b == bus && f == fx) ==> final(self).send_spec(b, f)
                    == old(self).send_spec(b, f),
    {
        if bus < 3 && fx < 3 {
            let v: u32 = self.send_level(bus, fx);
            let nv: u32 = crate::effects::step_level(v, up, 0, 1000, 50);
            self.set_send(bus, fx, nv);
        }
    }

    /// Snap one send to full when it sits at half or below, and to zero
    /// otherwise; an out-of-range pair is a no-op.
    pub fn toggle_send(&mut self, bus: usize, fx: usize)
        requires
            old(self).wf(),
        ensures
            final(self).wf(),
            bus < 3 && fx < 3 ==> final(self).send_spec(bus as int, fx as int) == (if old(
                self,
            ).send_spec(bus as int, fx as int) > 500 {
                0u32
            } else {
                1000u32
            }),
            forall|b: int, f: int|
                0 <= b < 3 && 0 <= f < 3 && !(b == bus && f == fx) ==> final(self).send_spec(b, f)
                    == old(self).send_spec(b, f),
    {
        if bus < 3 && fx < 3 {
            let v: u32 = self.send_level(bus, fx);
            let nv: u32 = if v > 500 {
                0
            } else {
                1000
            };
            self.set_send(bus, fx, nv);
        }
    }
}

// ── Note names ────────────────────────────────────────────────────────────

/// The pitch-class name of a note (its value modulo 12).
pub open spec fn pitch_class_spec(pc: int) -> Seq<char> {
    if pc == 0 {
        "C"@
    } else if pc == 1 {
        "C#"@
    } else if pc == 2 {
        "D"@
    } else if pc == 3 {
        "D#"@
    } else if pc == 4 {
        "E"@
    } else if pc == 5 {
        "F"@
    } else if pc == 6 {
        "F#"@
    } else if pc == 7 {
        "G"@
    } else if pc == 8 {
        "G#"@
    } else if pc == 9 {
        "A"@
    } else if pc == 10 {
        "A#"@
    } else {
        "B"@
    }
}

/// The octave label of a note: its value divided by 12, less one.
pub open spec fn octave_label_spec(oct: int) -> Seq<char> {
    if oct == -1 {
        "-1"@
    } else if oct == 0 {
        "0"@
    } else if oct == 1 {
        "1"@
    } else if oct == 2 {
        "2"@
    } else if oct == 3 {
        "3"@
    } else if oct == 4 {
        "4"@
    } else if oct == 5 {
        "5"@
    } else if oct == 6 {
        "6"@
    } else if oct == 7 {
        "7"@
    } else if oct == 8 {
        "8"@
    } else {
        "9"@
    }
}

/// A note's display name: pitch class then octave, e.g. 69 is the A above
/// middle C.
pub fn note_name(note: u8) -> (r: String)
    requires
        note <= 127,
    ensures
        r@ == pitch_class_spec(note as int % 12) + octave_label_spec(note as int / 12 - 1),
{
    let pc: &'static str = match note % 12 {
        0 => "C",
        1 => "C#",
        2 => "D",
        3 => "D#",
        4 => "E",
        5 => "F",
        6 => "F#",
        7 => "G",
        8 => "G#",
        9 => "A",
        10 => "A#",
        _ => "B",
    };
    let oct: &'static str = match note / 12 {
        0 => "-1",
        1 => "0",
        2 => "1",
        3 => "2",
        4 => "3",
        5 => "4",
        6 => "5",
        7 => "6",
        8 => "7",
        9 => "8",
        _ => "9",
    };
    String::from_str(pc).concat(oct)
}

proof fn lemma_attack_progress(v: Voice, p: EnvParams, sr: u32, j: nat)
    requires
        v.wf(),
        p.wf(),
        1 <= sr <= 1_000_000,
        v.stage == EnvelopeStage::Attack,
        v.level < LEVEL_ONE,
        env_samples(p.attack_ms, sr) >= 1,
    ensures
        ({
            let w = env_run(v, p, sr, j);
            ||| (w.stage == EnvelopeStage::Attack
                && w.level == v.level + j * attack_inc(p, sr)
                && v.level + j * attack_inc(p, sr) < LEVEL_ONE)
            ||| (exists|i: nat|
                #![trigger env_run(v, p, sr, i)]
                i <= j && env_run(v, p, sr, i).level == LEVEL_ONE
                    && env_run(v, p, sr, i).stage == EnvelopeStage::Decay)
        }),
    decreases j,
{
    if j > 0 {
        lemma_attack_progress(v, p, sr, (j - 1) as nat);
        let w = env_run(v, p, sr, (j - 1) as nat);
        if w.stage == EnvelopeStage::Attack && w.level == v.level + (j - 1) * attack_inc(p, sr)
            && v.level + (j - 1) * attack_inc(p, sr) < LEVEL_ONE {
            assert(env_run(v, p, sr, j) == w.env_step_spec(p, sr));
            assert(j * attack_inc(p, sr) == (j - 1) * attack_inc(p, sr) + attack_inc(p, sr))
                by (nonlinear_arith);
            if w.level + attack_inc(p, sr) >= LEVEL_ONE {
                assert(env_run(v, p, sr, j).level == LEVEL_ONE
                    && env_run(v, p, sr, j).stage == EnvelopeStage::Decay);
            }
        } else {
            assert(exists|i: nat|
                #![trigger env_run(v, p, sr, i)]
                i <= (j - 1) as nat && env_run(v, p, sr, i).level == LEVEL_ONE
                    && env_run(v, p, sr, i).stage == EnvelopeStage::Decay);
            let i0 = choose|i: nat|
                #![trigger env_run(v, p, sr, i)]
                i <= (j - 1) as nat && env_run(v, p, sr, i).level == LEVEL_ONE
                    && env_run(v, p, sr, i).stage == EnvelopeStage::Decay;
            assert(i0 <= j && env_run(v, p, sr, i0).level == LEVEL_ONE
                && env_run(v, p, sr, i0).stage == EnvelopeStage::Decay);
        }
    }
}

// ── Voice banks ───────────────────────────────────────────────────────────

/// A brand-new voice for a note, about to begin its attack.
pub open spec fn fresh_voice(note: u8) -> Voice {
    Voice { note, stage: EnvelopeStage::Attack, level: 0, release_level: 0 }
}

/// Whether some voice in the bank is bound to this note.
pub open spec fn has_note(bank: Seq<Voice>, note: u8) -> bool {
    exists|i: int| 0 <= i < bank.len() && (#[trigger] bank[i]).note == note
}

/// At most one voice per note.
pub open spec fn unique_notes(bank: Seq<Voice>) -> bool {
    forall|i: int, j: int|
        0 <= i < j < bank.len() ==> (#[trigger] bank[i]).note != (#[trigger] bank[j]).note
}

pub open spec fn bank_wf(bank: Seq<Voice>) -> bool {
    &&& unique_notes(bank)
    &&& forall|i: int| 0 <= i < bank.len() ==> (#[trigger] bank[i]).wf()
}

/// Triggering a note: a held note's voice is replaced by a fresh one, a new
/// note gains a voice at the end of the bank.
pub open spec fn apply_note_on(bank: Seq<Voice>, note: u8) -> Seq<Voice> {
    if has_note(bank, note) {
        let i = choose|i: int| 0 <= i < bank.len() && (#[trigger] bank[i]).note == note;
        bank.update(i, fresh_voice(note))
    } else {
        bank.push(fresh_voice(note))
    }
}

/// Releasing a note: its voice (if any) snapshots its level and enters
/// Release; a note with no voice changes nothing.
pub open spec fn apply_note_off(bank: Seq<Voice>, note: u8) -> Seq<Voice> {
    if has_note(bank, note) {
        let i = choose|i: int| 0 <= i < bank.len() && (#[trigger] bank[i]).note == note;
        bank.update(i, bank[i].release_spec())
    } else {
        bank
    }
}

/// A step event applied to a bank: the released note first, then the
/// triggered one.
pub open spec fn apply_event(bank: Seq<Voice>, ev: Option<StepEvent>) -> Seq<Voice> {
    match ev {
        Some(e) => {
            let b = match e.note_off {
                Some(n) => apply_note_off(bank, n),
                None => bank,
            };
            match e.note_on {
                Some(n) => apply_note_on(b, n),
                None => b,
            }
        },
        None => bank,
    }
}

/// One envelope sample over a whole bank: every voice steps once and voices
/// that reach Off leave the bank.
pub open spec fn step_prune(bank: Seq<Voice>, p: EnvParams, sr: u32) -> Seq<Voice>
    decreases bank.len(),
{
    if bank.len() == 0 {
        Seq::empty()
    } else {
        let rest = step_prune(bank.drop_last(), p, sr);
        let w = bank.last().env_step_spec(p, sr);
        if w.stage == EnvelopeStage::Off {
            rest
        } else {
            rest.push(w)
        }
    }
}

/// No finished voice survives a bank step: everything the step keeps is
/// still sounding, so a voice that reaches Off leaves the active set on the
/// very sample it finishes.
pub proof fn lemma_finished_voices_are_pruned(bank: Seq<Voice>, p: EnvParams, sr: u32)
    ensures
        forall|i: int|
            0 <= i < step_prune(bank, p, sr).len() ==> (#[trigger] step_prune(bank, p, sr)[i]).stage
                != EnvelopeStage::Off,
    decreases bank.len(),
{
    if bank.len() > 0 {
        lemma_finished_voices_are_pruned(bank.drop_last(), p, sr);
    }
}

/// The envelope step keeps a voice well formed and does not change its note.
proof fn lemma_env_step_wf(v: Voice, p: EnvParams, sr: u32)
    requires
        v.wf(),
        p.wf(),
    ensures
        v.env_step_spec(p, sr).wf(),
        v.env_step_spec(p, sr).note == v.note,
{
}

/// Stepping a bank only ever keeps notes it already had.
proof fn lemma_step_prune_has_note(bank: Seq<Voice>, p: EnvParams, sr: u32, n: u8)
    requires
        has_note(step_prune(bank, p, sr), n),
    ensures
        has_note(bank, n),
    decreases bank.len(),
{
    if bank.len() > 0 {
        let rest = step_prune(bank.drop_last(), p, sr);
        let w = bank.last().env_step_spec(p, sr);
        let out = step_prune(bank, p, sr);
        let i = choose|i: int| 0 <= i < out.len() && (#[trigger] out[i]).note == n;
        if w.stage != EnvelopeStage::Off && i == out.len() - 1 {
            assert(bank[bank.len() - 1].note == n);
        } else {
            assert(rest[i].note == n);
            lemma_step_prune_has_note(bank.drop_last(), p, sr, n);
            let j = choose|j: int|
                0 <= j < bank.drop_last().len() && (#[trigger] bank.drop_last()[j]).note == n;
            assert(bank[j].note == n);
        }
    }
}

/// Stepping a bank preserves well-formedness: every surviving voice is well
/// formed and notes stay unique.
proof fn lemma_step_prune_wf(bank: Seq<Voice>, p: EnvParams, sr: u32)
    requires
        bank_wf(bank),
        p.wf(),
    ensures
        bank_wf(step_prune(bank, p, sr)),
    decreases bank.len(),
{
    if bank.len() > 0 {
        assert(bank_wf(bank.drop_last())) by {
            assert(forall|i: int|
                0 <= i < bank.drop_last().len() ==> bank.drop_last()[i] == bank[i]);
        }
        lemma_step_prune_wf(bank.drop_last(), p, sr);
        let rest = step_prune(bank.drop_last(), p, sr);
        let last = bank.last();
        assert(last.wf());
        lemma_env_step_wf(last, p, sr);
        let w = last.env_step_spec(p, sr);
        if w.stage != EnvelopeStage::Off {
            assert(!has_note(bank.drop_last(), last.note)) by {
                assert(forall|i: int|
                    0 <= i < bank.len() - 1 ==> (#[trigger] bank[i]).note != last.note);
                assert(forall|i: int|
                    0 <= i < bank.drop_last().len() ==> bank.drop_last()[i] == bank[i]);
            }
            if has_note(rest, last.note) {
                lemma_step_prune_has_note(bank.drop_last(), p, sr, last.note);
            }
            assert(unique_notes(rest.push(w))) by {
                assert(forall|i: int|
                    0 <= i < rest.len() ==> (#[trigger] rest[i]).note != w.note);
            }
        }
    }
}

/// Find the voice bound to a note, release it in place, and report whether
/// one was found.
fn bank_release(bank: &mut Vec<Voice>, note: u8)
    requires
        bank_wf(old(bank)@),
    ensures
        bank_wf(final(bank)@),
        final(bank)@ == apply_note_off(old(bank)@, note),
{
    let n: usize = bank.len();
    let mut i: usize = 0;
    while i < n
        invariant
            i <= n,
            n == bank@.len(),
            *bank == *old(bank),
            bank_wf(bank@),
            forall|j: int| 0 <= j < i ==> (#[trigger] bank@[j]).note != note,
        decreases n - i,
    {
        if bank[i].note == note {
            let v: Voice = bank[i];
            let mut w: Voice = v;
            w.release();
            bank.set(i, w);
            proof {
                assert(has_note(old(bank)@, note));
                let c = choose|c: int|
                    0 <= c < old(bank)@.len() && (#[trigger] old(bank)@[c]).note == note;
                assert(c == i);
                assert(forall|j: int|
                    0 <= j < bank@.len() ==> (#[trigger] bank@[j]).note == old(bank)@[j].note);
            }
            return ;
        }
        i = i + 1;
    }
    proof {
        assert(!has_note(old(bank)@, note));
    }
}

/// Bind a fresh voice to a note, replacing the note's current voice if it has
/// one (a retrigger) and appending otherwise.
fn bank_trigger(bank: &mut Vec<Voice>, note: u8)
    requires
        bank_wf(old(bank)@),
    ensures
        bank_wf(final(bank)@),
        final(bank)@ == apply_note_on(old(bank)@, note),
{
    let n: usize = bank.len();
    let mut i: usize = 0;
    while i < n
        invariant
            i <= n,
            n == bank@.len(),
            *bank == *old(bank),
            bank_wf(bank@),
            forall|j: int| 0 <= j < i ==> (#[trigger] bank@[j]).note != note,
        decreases n - i,
    {
        if bank[i].note == note {
            bank.set(i, Voice::new(note));
            proof {
                assert(has_note(old(bank)@, note));
                let c = choose|c: int|
                    0 <= c < old(bank)@.len() && (#[trigger] old(bank)@[c]).note == note;
                assert(c == i);
                assert(forall|j: int|
                    0 <= j < bank@.len() ==> (#[trigger] bank@[j]).note == old(bank)@[j].note);
            }
            return ;
        }
        i = i + 1;
    }
    bank.push(Voice::new(note));
    proof {
        assert(!has_note(old(bank)@, note));
        assert(forall|j: int|
            0 <= j < old(bank)@.len() ==> (#[trigger] bank@[j]).note == old(bank)@[j].note);
    }
}

/// Advance every voice's envelope one sample and drop the voices that have
/// reached Off.
fn bank_step(bank: &mut Vec<Voice>, p: &EnvParams, sr: u32)
    requires
        bank_wf(old(bank)@),
        p.wf(),
        1 <= sr <= 1_000_000,
    ensures
        bank_wf(final(bank)@),
        final(bank)@ == step_prune(old(bank)@, *p, sr),
{
    let mut kept: Vec<Voice> = Vec::new();
    let ghost pool = bank@;
    let mut i: usize = 0;
    while i < bank.len()
        invariant
            i <= bank@.len(),
            bank@ == pool,
            bank_wf(pool),
            p.wf(),
            1 <= sr <= 1_000_000,
            kept@ == step_prune(pool.subrange(0, i as int), *p, sr),
        decreases bank@.len() - i,
    {
        proof {
            assert(pool[i as int].wf());
            assert(pool.subrange(0, i + 1).drop_last() =~= pool.subrange(0, i as int));
            assert(pool.subrange(0, i + 1).last() == pool[i as int]);
        }
        let mut w: Voice = bank[i];
        w.step_envelope(p, sr);
        if !w.is_finished() {
            kept.push(w);
        }
        i = i + 1;
    }
    proof {
        assert(pool.subrange(0, pool.len() as int) =~= pool);
        lemma_step_prune_wf(pool, *p, sr);
    }
    *bank = kept;
}

/// The attack guarantee: an attacking voice reaches full level — exactly
/// `LEVEL_ONE`, entering Decay — within `env_samples(attack_ms, sr)` samples
/// (one sample when that is zero).
pub proof fn lemma_attack_reaches_full(v: Voice, p: EnvParams, sr: u32)
    requires
        v.wf(),
        p.wf(),
        1 <= sr <= 1_000_000,
        v.stage == EnvelopeStage::Attack,
    ensures
        ({
            let n = if env_samples(p.attack_ms, sr) >= 1 {
                env_samples(p.attack_ms, sr)
            } else {
                1
            };
            exists|i: nat|
                #![trigger env_run(v, p, sr, i)]
                i <= n && env_run(v, p, sr, i).level == LEVEL_ONE
                    && env_run(v, p, sr, i).stage == EnvelopeStage::Decay
        }),
{
    let n = env_samples(p.attack_ms, sr);
    if n < 1 || v.level == LEVEL_ONE || v.level + attack_inc(p, sr) >= LEVEL_ONE {
        assert(env_run(v, p, sr, 1) == env_run(v, p, sr, 0).env_step_spec(p, sr));
        assert(env_run(v, p, sr, 1).level == LEVEL_ONE
            && env_run(v, p, sr, 1).stage == EnvelopeStage::Decay);
    } else {
        lemma_attack_progress(v, p, sr, n as nat);
        let w = env_run(v, p, sr, n as nat);
        if w.stage == EnvelopeStage::Attack && w.level == v.level + n * attack_inc(p, sr)
            && v.level + n * attack_inc(p, sr) < LEVEL_ONE {
            lemma_ceil_mul(LEVEL_ONE as int, n);
            assert(n * attack_inc(p, sr) >= LEVEL_ONE);
            assert(false);
        }
    }
}

// ── Synth ─────────────────────────────────────────────────────────────────

/// The engine aggregate: two melodic voice banks with their sequencers and
/// envelopes, the drum machine, the master effect and routing parameters, and
/// the one master clock every rhythmic subsystem is locked to. Waveform and
/// effect signal arithmetic runs outside the core against this state.
pub struct Synth {
    pub sample_rate: u32,
    /// Master tempo in beats per minute, shared by all sequencers.
    pub bpm: u32,
    /// Incremented once per generated sample.
    pub master_clock: u64,
    pub wave_type: WaveType,
    pub voices: Vec<Voice>,
    pub env: EnvParams,
    pub volume_m: u32,
    pub sequencer: crate::sequencer::Sequencer,
    pub wave_type2: WaveType,
    pub voices2: Vec<Voice>,
    pub env2: EnvParams,
    pub volume2_m: u32,
    pub sequencer2: crate::sequencer::Sequencer,
    pub drum_machine: crate::drums::DrumMachine,
    pub reverb: crate::effects::Reverb,
    pub delay: crate::effects::Delay,
    pub distortion: crate::effects::Distortion,
    pub sidechain: crate::effects::Sidechain,
    pub filter1: crate::effects::BiquadFilter,
    pub filter2: crate::effects::BiquadFilter,
    pub fx_routing: FxRouting,
}

impl Synth {
    pub open spec fn wf(self) -> bool {
        &&& 1 <= self.sample_rate <= 1_000_000
        &&& 30 <= self.bpm <= 300
        &&& bank_wf(self.voices@)
        &&& bank_wf(self.voices2@)
        &&& self.env.wf()
        &&& self.env2.wf()
        &&& self.volume_m <= 1000
        &&& self.volume2_m <= 1000
        &&& self.sequencer.wf()
        &&& self.sequencer.sample_rate == self.sample_rate
        &&& self.sequencer2.wf()
        &&& self.sequencer2.sample_rate == self.sample_rate
        &&& self.drum_machine.wf()
        &&& self.drum_machine.sample_rate == self.sample_rate
        &&& self.reverb.wf()
        &&& self.delay.wf()
        &&& self.distortion.wf()
        &&& self.sidechain.wf()
        &&& self.filter1.wf()
        &&& self.filter2.wf()
        &&& self.fx_routing.wf()
    }

    pub fn new(sample_rate: u32) -> (s: Synth)
        requires
            1 <= sample_rate <= 1_000_000,
        ensures
            s.wf(),
            s.sample_rate == sample_rate,
            s.bpm == 120,
            s.master_clock == 0,
            s.wave_type == WaveType::Sine,
            s.wave_type2 == WaveType::Sine,
            s.voices@.len() == 0,
            s.voices2@.len() == 0,
            s.volume_m == 500,
            s.volume2_m == 500,
            s.env == (EnvParams { attack_ms: 10, decay_ms: 100, sustain_m: 700, release_ms: 300 }),
            s.env2 == (EnvParams { attack_ms: 10, decay_ms: 100, sustain_m: 700, release_ms: 300 }),
            !s.sequencer.playing,
            !s.sequencer2.playing,
            !s.drum_machine.playing,
    {
        Synth {
            sample_rate,
            bpm: 120,
            master_clock: 0,
            wave_type: WaveType::Sine,
            voices: Vec::new(),
            env: EnvParams::new(),
            volume_m: 500,
            sequencer: crate::sequencer::Sequencer::new(sample_rate),
            wave_type2: WaveType::Sine,
            voices2: Vec::new(),
            env2: EnvParams::new(),
            volume2_m: 500,
            sequencer2: crate::sequencer::Sequencer::new(sample_rate),
            drum_machine: crate::drums::DrumMachine::new(sample_rate),
            reverb: crate::effects::Reverb::new(),
            delay: crate::effects::Delay::new(),
            distortion: crate::effects::Distortion::new(),
            sidechain: crate::effects::Sidechain::new(),
            filter1: crate::effects::BiquadFilter::new(),
            filter2: crate::effects::BiquadFilter::new(),
            fx_routing: FxRouting::new(),
        }
    }

    /// Everything except the first melodic voice bank agrees.
    pub open spec fn eq_but_voices(self, o: Synth) -> bool {
        &&& self.sample_rate == o.sample_rate
        &&& self.bpm == o.bpm
        &&& self.master_clock == o.master_clock
        &&& self.wave_type == o.wave_type
        &&& self.env == o.env
        &&& self.volume_m == o.volume_m
        &&& self.sequencer == o.sequencer
        &&& self.wave_type2 == o.wave_type2
        &&& self.voices2@ == o.voices2@
        &&& self.env2 == o.env2
        &&& self.volume2_m == o.volume2_m
        &&& self.sequencer2 == o.sequencer2
        &&& self.drum_machine == o.drum_machine
        &&& self.reverb == o.reverb
        &&& self.delay == o.delay
        &&& self.distortion == o.distortion
        &&& self.sidechain == o.sidechain
        &&& self.filter1 == o.filter1
        &&& self.filter2 == o.filter2
        &&& self.fx_routing == o.fx_routing
    }

    /// Everything except the second melodic voice bank agrees.
    pub open spec fn eq_but_voices2(self, o: Synth) -> bool {
        &&& self.sample_rate == o.sample_rate
        &&& self.bpm == o.bpm
        &&& self.master_clock == o.master_clock
        &&& self.wave_type == o.wave_type
        &&& self.voices@ == o.voices@
        &&& self.env == o.env
        &&& self.volume_m == o.volume_m
        &&& self.sequencer == o.sequencer
        &&& self.wave_type2 == o.wave_type2
        &&& self.env2 == o.env2
        &&& self.volume2_m == o.volume2_m
        &&& self.sequencer2 == o.sequencer2
        &&& self.drum_machine == o.drum_machine
        &&& self.reverb == o.reverb
        &&& self.delay == o.delay
        &&& self.distortion == o.distortion
        &&& self.sidechain == o.sidechain
        &&& self.filter1 == o.filter1
        &&& self.filter2 == o.filter2
        &&& self.fx_routing == o.fx_routing
    }

    // ── Bank 1 note control ───────────────────────────────────────────────

    /// Begin a note on bank 1: a fresh Attack voice, replacing the note's
    /// voice if the note is already held.
    pub fn note_on(&mut self, note: u8)
        requires
            old(self).wf(),
        ensures
            final(self).wf(),
            final(self).voices@ == apply_note_on(old(self).voices@, note),
            final(self).eq_but_voices(*old(self)),
    {
        bank_trigger(&mut self.voices, note);
    }

    /// Release a note on bank 1; a note with no sounding voice is a no-op.
    pub fn note_off(&mut self, note: u8)
        requires
            old(self).wf(),
        ensures
            final(self).wf(),
            final(self).voices@ == apply_note_off(old(self).voices@, note),
            final(self).eq_but_voices(*old(self)),
            !has_note(old(self).voices@, note) ==> final(self).voices@ == old(self).voices@,
    {
        bank_release(&mut self.voices, note);
    }

    /// The notes currently sounding on bank 1, in bank order.
    pub fn active_notes(&self) -> (r: Vec<u8>)
        ensures
            r@.len() == self.voices@.len(),
            forall|i: int| 0 <= i < r@.len() ==> r@[i] == self.voices@[i].note,
    {
        let mut r: Vec<u8> = Vec::new();
        let mut i: usize = 0;
        while i < self.voices.len()
            invariant
                i <= self.voices@.len(),
                r@.len() == i,
                forall|j: int| 0 <= j < i ==> r@[j] == self.voices@[j].note,
            decreases self.voices@.len() - i,
        {
            r.push(self.voices[i].note);
            i = i + 1;
        }
        r
    }

    // ── Bank 2 note control ───────────────────────────────────────────────

    /// Begin a note on bank 2.
    pub fn note_on2(&mut self, note: u8)
        requires
            old(self).wf(),
        ensures
            final(self).wf(),
            final(self).voices2@ == apply_note_on(old(self).voices2@, note),
            final(self).eq_but_voices2(*old(self)),
    {
        bank_trigger(&mut self.voices2, note);
    }

    /// Release a note on bank 2; a note with no sounding voice is a no-op.
    pub fn note_off2(&mut self, note: u8)
        requires
            old(self).wf(),
        ensures
            final(self).wf(),
            final(self).voices2@ == apply_note_off(old(self).voices2@, note),
            final(self).eq_but_voices2(*old(self)),
            !has_note(old(self).voices2@, note) ==> final(self).voices2@ == old(self).voices2@,
    {
        bank_release(&mut self.voices2, note);
    }

    /// The notes currently sounding on bank 2, in bank order.
    pub fn active_notes2(&self) -> (r: Vec<u8>)
        ensures
            r@.len() == self.voices2@.len(),
            forall|i: int| 0 <= i < r@.len() ==> r@[i] == self.voices2@[i].note,
    {
        let mut r: Vec<u8> = Vec::new();
        let mut i: usize = 0;
        while i < self.voices2.len()
            invariant
                i <= self.voices2@.len(),
                r@.len() == i,
                forall|j: int| 0 <= j < i ==> r@[j] == self.voices2@[j].note,
            decreases self.voices2@.len() - i,
        {
            r.push(self.voices2[i].note);
            i = i + 1;
        }
        r
    }

    // ── Tempo and volume ──────────────────────────────────────────────────

    /// Raise the master tempo five beats per minute, capped at 300.
    pub fn bpm_up(&mut self)
        requires
            old(self).wf(),
        ensures
            final(self).wf(),
            *final(self) == (Synth {
                bpm: crate::effects::step_level_spec(old(self).bpm, true, 30, 300, 5),
                ..*old(self)
            }),
    {
        self.bpm = crate::effects::step_level(self.bpm, true, 30, 300, 5);
    }

    /// Lower the master tempo five beats per minute, stopping at 30.
    pub fn bpm_down(&mut self)
        requires
            old(self).wf(),
        ensures
            final(self).wf(),
            *final(self) == (Synth {
                bpm: crate::effects::step_level_spec(old(self).bpm, false, 30, 300, 5),
                ..*old(self)
            }),
    {
        self.bpm = crate::effects::step_level(self.bpm, false, 30, 300, 5);
    }

    /// Step bank 1's volume one notch (a twentieth of full scale).
    pub fn volume_step(&mut self, up: bool)
        requires
            old(self).wf(),
        ensures
            final(self).wf(),
            *final(self) == (Synth {
                volume_m: crate::effects::step_level_spec(old(self).volume_m, up, 0, 1000, 50),
                ..*old(self)
            }),
    {
        self.volume_m = crate::effects::step_level(self.volume_m, up, 0, 1000, 50);
    }

    /// Step bank 2's volume one notch (a twentieth of full scale).
    pub fn volume2_step(&mut self, up: bool)
        requires
            old(self).wf(),
        ensures
            final(self).wf(),
            *final(self) == (Synth {
                volume2_m: crate::effects::step_level_spec(old(self).volume2_m, up, 0, 1000, 50),
                ..*old(self)
            }),
    {
        self.volume2_m = crate::effects::step_level(self.volume2_m, up, 0, 1000, 50);
    }

    // ── Per-sample control step ───────────────────────────────────────────

    /// One sample of the engine's control state, in the fixed order: capture
    /// and advance the master clock; tick both sequencers against it and
    /// apply their note-off/note-on events to their banks; advance every
    /// melodic envelope one sample, pruning finished voices; and run the drum
    /// machine's own step check and voice advance. The signal path then
    /// renders this state into one output sample outside the core.
    pub fn tick(&mut self)
        requires
            old(self).wf(),
            old(self).master_clock < 0xFFFF_FFFF_FFFF_FFFFu64,
        ensures
            final(self).wf(),
            final(self).master_clock == old(self).master_clock + 1,
            final(self).sample_rate == old(self).sample_rate,
            final(self).bpm == old(self).bpm,
            final(self).wave_type == old(self).wave_type,
            final(self).wave_type2 == old(self).wave_type2,
            final(self).env == old(self).env,
            final(self).env2 == old(self).env2,
            final(self).volume_m == old(self).volume_m,
            final(self).volume2_m == old(self).volume2_m,
            final(self).reverb == old(self).reverb,
            final(self).delay == old(self).delay,
            final(self).distortion == old(self).distortion,
            final(self).sidechain == old(self).sidechain,
            final(self).filter1 == old(self).filter1,
            final(self).filter2 == old(self).filter2,
            final(self).fx_routing == old(self).fx_routing,
            ({
                let clock = old(self).master_clock;
                let s1 = old(self).sequencer;
                &&& final(self).sequencer.steps@ == s1.steps@
                &&& final(self).sequencer.num_steps == s1.num_steps
                &&& final(self).sequencer.playing == s1.playing
                &&& final(self).sequencer.sample_rate == s1.sample_rate
                &&& final(self).sequencer.current_step == (if s1.playing {
                    s1.step_at(old(self).bpm, clock)
                } else {
                    s1.current_step as int
                })
                &&& final(self).voices@ == step_prune(
                    apply_event(old(self).voices@, s1.seq_event(old(self).bpm, clock)),
                    old(self).env,
                    old(self).sample_rate,
                )
            }),
            ({
                let clock = old(self).master_clock;
                let s2 = old(self).sequencer2;
                &&& final(self).sequencer2.steps@ == s2.steps@
                &&& final(self).sequencer2.num_steps == s2.num_steps
                &&& final(self).sequencer2.playing == s2.playing
                &&& final(self).sequencer2.sample_rate == s2.sample_rate
                &&& final(self).sequencer2.current_step == (if s2.playing {
                    s2.step_at(old(self).bpm, clock)
                } else {
                    s2.current_step as int
                })
                &&& final(self).voices2@ == step_prune(
                    apply_event(old(self).voices2@, s2.seq_event(old(self).bpm, clock)),
                    old(self).env2,
                    old(self).sample_rate,
                )
            }),
            ({
                let clock = old(self).master_clock;
                let dm0 = old(self).drum_machine;
                let fired = crate::drums::fires_now(dm0, old(self).bpm, clock);
                let idx = (clock as int / crate::sequencer::samples_per_step_spec(
                    dm0.sample_rate,
                    old(self).bpm,
                )) % (dm0.num_steps as int);
                let r = crate::drums::fire_result(
                    crate::drums::DrumMachine { current_step: idx as usize, ..dm0 },
                    idx,
                );
                &&& final(self).drum_machine.tracks@ == dm0.tracks@
                &&& final(self).drum_machine.num_steps == dm0.num_steps
                &&& final(self).drum_machine.playing == dm0.playing
                &&& final(self).drum_machine.swing_m == dm0.swing_m
                &&& final(self).drum_machine.sample_rate == dm0.sample_rate
                &&& final(self).drum_machine.current_step == idx
                &&& final(self).drum_machine.voices@ == crate::drums::advance_prune(
                    if fired {
                        r.0
                    } else {
                        dm0.voices@
                    },
                )
                &&& final(self).drum_machine.seed == (if fired {
                    r.1
                } else {
                    dm0.seed
                })
                &&& final(self).drum_machine.prob_seed == (if fired {
                    r.2
                } else {
                    dm0.prob_seed
                })
                &&& final(self).drum_machine.kick_triggered == (fired && r.3)
            }),
    {
        let clock: u64 = self.master_clock;
        self.master_clock = clock + 1;
        let bpm: u32 = self.bpm;
        let sr: u32 = self.sample_rate;

        let ev1: Option<StepEvent> = self.sequencer.tick(bpm, clock);
        match ev1 {
            Some(e) => {
                match e.note_off {
                    Some(n) => bank_release(&mut self.voices, n),
                    None => {},
                }
                match e.note_on {
                    Some(n) => bank_trigger(&mut self.voices, n),
                    None => {},
                }
            },
            None => {},
        }

        let ev2: Option<StepEvent> = self.sequencer2.tick(bpm, clock);
        match ev2 {
            Some(e) => {
                match e.note_off {
                    Some(n) => bank_release(&mut self.voices2, n),
                    None => {},
                }
                match e.note_on {
                    Some(n) => bank_trigger(&mut self.voices2, n),
                    None => {},
                }
            },
            None => {},
        }

        let p1: EnvParams = self.env;
        bank_step(&mut self.voices, &p1, sr);
        let p2: EnvParams = self.env2;
        bank_step(&mut self.voices2, &p2, sr);

        self.drum_machine.tick(bpm, clock);
    }
}

} // verus!
