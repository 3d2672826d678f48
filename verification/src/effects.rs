//! Parameter state of the master and insert effects: enable flags and every
//! user-adjustable quantity, held in clamped integer units. The signal-path
//! arithmetic of the effects runs outside the core; everything that reaches
//! it goes through these clamped mutators, so no out-of-range value can ever
//! reach the signal path.

use vstd::prelude::*;

verus! {

/// A parameter stepped one notch up or down, saturating at its range ends.
pub open spec fn step_level_spec(v: u32, up: bool, lo: u32, hi: u32, step: u32) -> u32 {
    if up {
        if v + step >= hi {
            hi
        } else {
            (v + step) as u32
        }
    } else {
        if v <= lo + step {
            lo
        } else {
            (v - step) as u32
        }
    }
}

/// Step a clamped parameter one notch.
pub fn step_level(v: u32, up: bool, lo: u32, hi: u32, step: u32) -> (r: u32)
    requires
        lo <= v <= hi,
        hi <= 1_000_000,
        step <= 1_000_000,
    ensures
        r == step_level_spec(v, up, lo, hi, step),
        lo <= r <= hi,
{
    if up {
        if v + step >= hi {
            hi
        } else {
            v + step
        }
    } else {
        if v <= lo + step {
            lo
        } else {
            v - step
        }
    }
}

// ── Reverb parameters ─────────────────────────────────────────────────────

/// Freeverb-style reverb: room size maps to comb feedback, damping to the
/// one-pole smoothing inside each comb, and the wet output is scaled by mix.
/// All three are per-mille of full scale.
pub struct Reverb {
    pub enabled: bool,
    pub room_size_m: u32,
    pub damping_m: u32,
    pub mix_m: u32,
}

impl Reverb {
    pub open spec fn wf(self) -> bool {
        &&& self.room_size_m <= 1000
        &&& self.damping_m <= 1000
        &&& self.mix_m <= 1000
    }

    pub fn new() -> (r: Reverb)
        ensures
            r.wf(),
            !r.enabled,
            r.room_size_m == 500,
            r.damping_m == 500,
            r.mix_m == 300,
    {
        Reverb { enabled: false, room_size_m: 500, damping_m: 500, mix_m: 300 }
    }

    pub fn toggle_enabled(&mut self)
        ensures
            *final(self) == (Reverb { enabled: !old(self).enabled, ..*old(self) }),
    {
        self.enabled = !self.enabled;
    }

    /// Step one parameter (0 = room size, 1 = damping, anything else = mix)
    /// one notch of a twentieth of full scale, clamped to [0, 1].
    pub fn adjust(&mut self, param: usize, up: bool)
        requires
            old(self).wf(),
        ensures
            final(self).wf(),
            final(self).enabled == old(self).enabled,
            final(self).room_size_m == (if param == 0 {
                step_level_spec(old(self).room_size_m, up, 0, 1000, 50)
            } else {
                old(self).room_size_m
            }),
            final(self).damping_m == (if param == 1 {
                step_level_spec(old(self).damping_m, up, 0, 1000, 50)
            } else {
                old(self).damping_m
            }),
            final(self).mix_m == (if param != 0 && param != 1 {
                step_level_spec(old(self).mix_m, up, 0, 1000, 50)
            } else {
                old(self).mix_m
            }),
    {
        match param {
            0 => self.room_size_m = step_level(self.room_size_m, up, 0, 1000, 50),
            1 => self.damping_m = step_level(self.damping_m, up, 0, 1000, 50),
            _ => self.mix_m = step_level(self.mix_m, up, 0, 1000, 50),
        }
    }
}

// ── Delay parameters ──────────────────────────────────────────────────────

/// Ring-buffer echo: delay time in milliseconds, feedback and wet mix in
/// per-mille.
pub struct Delay {
    pub enabled: bool,
    pub time_ms: u32,
    pub feedback_m: u32,
    pub mix_m: u32,
}

impl Delay {
    pub open spec fn wf(self) -> bool {
        &&& 10 <= self.time_ms <= 1000
        &&& self.feedback_m <= 950
        &&& self.mix_m <= 1000
    }

    pub fn new() -> (d: Delay)
        ensures
            d.wf(),
            !d.enabled,
            d.time_ms == 250,
            d.feedback_m == 400,
            d.mix_m == 300,
    {
        Delay { enabled: false, time_ms: 250, feedback_m: 400, mix_m: 300 }
    }

    pub fn toggle_enabled(&mut self)
        ensures
            *final(self) == (Delay { enabled: !old(self).enabled, ..*old(self) }),
    {
        self.enabled = !self.enabled;
    }

    /// Step one parameter (0 = time by 25 ms in [10, 1000], 1 = feedback by
    /// a twentieth in [0, 0.95], anything else = mix in [0, 1]).
    pub fn adjust(&mut self, param: usize, up: bool)
        requires
            old(self).wf(),
        ensures
            final(self).wf(),
            final(self).enabled == old(self).enabled,
            final(self).time_ms == (if param == 0 {
                step_level_spec(old(self).time_ms, up, 10, 1000, 25)
            } else {
                old(self).time_ms
            }),
            final(self).feedback_m == (if param == 1 {
                step_level_spec(old(self).feedback_m, up, 0, 950, 50)
            } else {
                old(self).feedback_m
            }),
            final(self).mix_m == (if param != 0 && param != 1 {
                step_level_spec(old(self).mix_m, up, 0, 1000, 50)
            } else {
                old(self).mix_m
            }),
    {
        match param {
            0 => self.time_ms = step_level(self.time_ms, up, 10, 1000, 25),
            1 => self.feedback_m = step_level(self.feedback_m, up, 0, 950, 50),
            _ => self.mix_m = step_level(self.mix_m, up, 0, 1000, 50),
        }
    }
}

// ── Distortion parameters ─────────────────────────────────────────────────

/// Waveshaper: drive is gain before clipping in per-mille of unity (1.0 to
/// 10.0), tone blends soft against hard clipping, level scales the output.
pub struct Distortion {
    pub enabled: bool,
    pub drive_m: u32,
    pub tone_m: u32,
    pub level_m: u32,
}

impl Distortion {
    pub open spec fn wf(self) -> bool {
        &&& 1000 <= self.drive_m <= 10_000
        &&& self.tone_m <= 1000
        &&& self.level_m <= 1000
    }

    pub fn new() -> (d: Distortion)
        ensures
            d.wf(),
            !d.enabled,
            d.drive_m == 3000,
            d.tone_m == 300,
            d.level_m == 700,
    {
        Distortion { enabled: false, drive_m: 3000, tone_m: 300, level_m: 700 }
    }

    pub fn toggle_enabled(&mut self)
        ensures
            *final(self) == (Distortion { enabled: !old(self).enabled, ..*old(self) }),
    {
        self.enabled = !self.enabled;
    }

    /// Step one parameter (0 = drive by 0.5 in [1, 10], 1 = tone, anything
    /// else = level, both by a twentieth in [0, 1]).
    pub fn adjust(&mut self, param: usize, up: bool)
        requires
            old(self).wf(),
        ensures
            final(self).wf(),
            final(self).enabled == old(self).enabled,
            final(self).drive_m == (if param == 0 {
                step_level_spec(old(self).drive_m, up, 1000, 10_000, 500)
            } else {
                old(self).drive_m
            }),
            final(self).tone_m == (if param == 1 {
                step_level_spec(old(self).tone_m, up, 0, 1000, 50)
            } else {
                old(self).tone_m
            }),
            final(self).level_m == (if param != 0 && param != 1 {
                step_level_spec(old(self).level_m, up, 0, 1000, 50)
            } else {
                old(self).level_m
            }),
    {
        match param {
            0 => self.drive_m = step_level(self.drive_m, up, 1000, 10_000, 500),
            1 => self.tone_m = step_level(self.tone_m, up, 0, 1000, 50),
            _ => self.level_m = step_level(self.level_m, up, 0, 1000, 50),
        }
    }
}

// ── Sidechain parameters ──────────────────────────────────────────────────

/// Kick-driven ducking of the melodic buses: depth in per-mille, recovery
/// time in milliseconds, and one duck flag per melodic bus.
pub struct Sidechain {
    pub enabled: bool,
    pub depth_m: u32,
    pub release_ms: u32,
    pub duck_s1: bool,
    pub duck_s2: bool,
}

impl Sidechain {
    pub open spec fn wf(self) -> bool {
        &&& self.depth_m <= 1000
        &&& 10 <= self.release_ms <= 500
    }

    pub fn new() -> (s: Sidechain)
        ensures
            s.wf(),
            !s.enabled,
            s.depth_m == 500,
            s.release_ms == 150,
            !s.duck_s1,
            !s.duck_s2,
    {
        Sidechain { enabled: false, depth_m: 500, release_ms: 150, duck_s1: false, duck_s2: false }
    }

    pub fn toggle_enabled(&mut self)
        ensures
            *final(self) == (Sidechain { enabled: !old(self).enabled, ..*old(self) }),
    {
        self.enabled = !self.enabled;
    }

    pub fn toggle_duck_s1(&mut self)
        ensures
            *final(self) == (Sidechain { duck_s1: !old(self).duck_s1, ..*old(self) }),
    {
        self.duck_s1 = !self.duck_s1;
    }

    pub fn toggle_duck_s2(&mut self)
        ensures
            *final(self) == (Sidechain { duck_s2: !old(self).duck_s2, ..*old(self) }),
    {
        self.duck_s2 = !self.duck_s2;
    }

    /// Step one parameter (0 = depth by a twentieth in [0, 1], 1 = recovery
    /// by 25 ms in [10, 500] ms; anything else is a no-op).
    pub fn adjust(&mut self, param: usize, up: bool)
        requires
            old(self).wf(),
        ensures
            final(self).wf(),
            final(self).enabled == old(self).enabled,
            final(self).duck_s1 == old(self).duck_s1,
            final(self).duck_s2 == old(self).duck_s2,
            final(self).depth_m == (if param == 0 {
                step_level_spec(old(self).depth_m, up, 0, 1000, 50)
            } else {
                old(self).depth_m
            }),
            final(self).release_ms == (if param == 1 {
                step_level_spec(old(self).release_ms, up, 10, 500, 25)
            } else {
                old(self).release_ms
            }),
    {
        match param {
            0 => self.depth_m = step_level(self.depth_m, up, 0, 1000, 50),
            1 => self.release_ms = step_level(self.release_ms, up, 10, 500, 25),
            _ => {},
        }
    }
}

// ── Biquad filter parameters ──────────────────────────────────────────────

#[derive(Clone, Copy, Debug, PartialEq, Eq, Structural)]
pub enum FilterMode {
    LowPass,
    HighPass,
    BandPass,
}

impl FilterMode {
    /// Two-letter display name.
    pub fn name(self) -> (r: &'static str)
        ensures
            r@ == (match self {
                FilterMode::LowPass => "LP"@,
                FilterMode::HighPass => "HP"@,
                FilterMode::BandPass => "BP"@,
            }),
    {
        match self {
            FilterMode::LowPass => "LP",
            FilterMode::HighPass => "HP",
            FilterMode::BandPass => "BP",
        }
    }

    /// Cycle forward: LP → HP → BP → LP.
    pub fn next(self) -> (r: Self)
        ensures
            r == (match self {
                FilterMode::LowPass => FilterMode::HighPass,
                FilterMode::HighPass => FilterMode::BandPass,
                FilterMode::BandPass => FilterMode::LowPass,
            }),
    {
        match self {
            FilterMode::LowPass => FilterMode::HighPass,
            FilterMode::HighPass => FilterMode::BandPass,
            FilterMode::BandPass => FilterMode::LowPass,
        }
    }

    /// Cycle backward: LP → BP → HP → LP.
    pub fn prev(self) -> (r: Self)
        ensures
            r == (match self {
                FilterMode::LowPass => FilterMode::BandPass,
                FilterMode::HighPass => FilterMode::LowPass,
                FilterMode::BandPass => FilterMode::HighPass,
            }),
    {
        match self {
            FilterMode::LowPass => FilterMode::BandPass,
            FilterMode::HighPass => FilterMode::LowPass,
            FilterMode::BandPass => FilterMode::HighPass,
        }
    }

    /// Position of this mode in the persisted order.
    pub open spec fn index_spec(self) -> int {
        match self {
            FilterMode::LowPass => 0,
            FilterMode::HighPass => 1,
            FilterMode::BandPass => 2,
        }
    }

    pub fn index(self) -> (i: u8)
        ensures
            i == self.index_spec(),
    {
        match self {
            FilterMode::LowPass => 0,
            FilterMode::HighPass => 1,
            FilterMode::BandPass => 2,
        }
    }

    /// The mode at a persisted position (out of range falls back to low-pass).
    pub open spec fn from_index_spec(i: int) -> FilterMode {
        if i == 1 {
            FilterMode::HighPass
        } else if i == 2 {
            FilterMode::BandPass
        } else {
            FilterMode::LowPass
        }
    }

    pub fn from_index(i: u8) -> (m: FilterMode)
        ensures
            m == FilterMode::from_index_spec(i as int),
    {
        match i {
            1 => FilterMode::HighPass,
            2 => FilterMode::BandPass,
            _ => FilterMode::LowPass,
        }
    }
}

/// Two-pole filter applied as an insert on a melodic bus: mode, cutoff in
/// hertz, and resonance in per-mille of unity. Disabled, it is a verbatim
/// passthrough. The coefficient cache and delay state live in the signal
/// path outside the core.
pub struct BiquadFilter {
    pub enabled: bool,
    pub mode: FilterMode,
    pub cutoff_hz: u32,
    pub q_m: u32,
}

impl BiquadFilter {
    pub open spec fn wf(self) -> bool {
        &&& 80 <= self.cutoff_hz <= 18_000
        &&& 500 <= self.q_m <= 10_000
    }

    pub fn new() -> (f: BiquadFilter)
        ensures
            f.wf(),
            !f.enabled,
            f.mode == FilterMode::LowPass,
            f.cutoff_hz == 5000,
            f.q_m == 707,
    {
        BiquadFilter { enabled: false, mode: FilterMode::LowPass, cutoff_hz: 5000, q_m: 707 }
    }

    pub fn toggle_enabled(&mut self)
        ensures
            *final(self) == (BiquadFilter { enabled: !old(self).enabled, ..*old(self) }),
    {
        self.enabled = !self.enabled;
    }

    /// The cutoff moved one equal-tempered semitone up or down and clamped
    /// to [80, 18000] Hz.
    pub open spec fn semitone_step_spec(v: u32, up: bool) -> u32 {
        let moved = if up {
            v * 10_595 / 10_000
        } else {
            v * 10_000 / 10_595
        };
        if moved < 80 {
            80u32
        } else if moved > 18_000 {
            18_000u32
        } else {
            moved as u32
        }
    }

    /// Step one parameter (0 = cycle the mode, 1 = cutoff by one semitone,
    /// anything else = resonance by 0.1 in [0.5, 10]).
    pub fn adjust(&mut self, param: usize, up: bool)
        requires
            old(self).wf(),
        ensures
            final(self).wf(),
            final(self).enabled == old(self).enabled,
            final(self).mode == (if param == 0 {
                if up {
                    match old(self).mode {
                        FilterMode::LowPass => FilterMode::HighPass,
                        FilterMode::HighPass => FilterMode::BandPass,
                        FilterMode::BandPass => FilterMode::LowPass,
                    }
                } else {
                    match old(self).mode {
                        FilterMode::LowPass => FilterMode::BandPass,
                        FilterMode::HighPass => FilterMode::LowPass,
                        FilterMode::BandPass => FilterMode::HighPass,
                    }
                }
            } else {
                old(self).mode
            }),
            final(self).cutoff_hz == (if param == 1 {
                BiquadFilter::semitone_step_spec(old(self).cutoff_hz, up)
            } else {
                old(self).cutoff_hz
            }),
            final(self).q_m == (if param != 0 && param != 1 {
                step_level_spec(old(self).q_m, up, 500, 10_000, 100)
            } else {
                old(self).q_m
            }),
    {
        match param {
            0 => {
                self.mode = if up {
                    self.mode.next()
                } else {
                    self.mode.prev()
                };
            },
            1 => {
                let moved: u64 = if up {
                    self.cutoff_hz as u64 * 10_595 / 10_000
                } else {
                    self.cutoff_hz as u64 * 10_000 / 10_595
                };
                self.cutoff_hz = if moved < 80 {
                    80
                } else if moved > 18_000 {
                    18_000
                } else {
                    moved as u32
                };
            },
            _ => {
                self.q_m = step_level(self.q_m, up, 500, 10_000, 100);
            },
        }
    }
}

} // verus!
