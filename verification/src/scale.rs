//! Musical scales and the input-side scale quantizer: incoming notes snap to
//! the nearest scale degree at or below them.

use vstd::prelude::*;

verus! {

#[derive(Clone, Copy, Debug, PartialEq, Eq, Structural)]
pub enum Scale {
    Off,
    Major,
    Minor,
    Pentatonic,
    Blues,
}

impl Scale {
    /// Cycle to the next scale choice.
    pub fn next(self) -> (r: Self)
        ensures
            r == (match self {
                Scale::Off => Scale::Major,
                Scale::Major => Scale::Minor,
                Scale::Minor => Scale::Pentatonic,
                Scale::Pentatonic => Scale::Blues,
                Scale::Blues => Scale::Off,
            }),
    {
        match self {
            Scale::Off => Scale::Major,
            Scale::Major => Scale::Minor,
            Scale::Minor => Scale::Pentatonic,
            Scale::Pentatonic => Scale::Blues,
            Scale::Blues => Scale::Off,
        }
    }

    /// Display name of the scale.
    pub fn name(self) -> (r: &'static str)
        ensures
            r@ == (match self {
                Scale::Off => "Off"@,
                Scale::Major => "Major"@,
                Scale::Minor => "Minor"@,
                Scale::Pentatonic => "Penta"@,
                Scale::Blues => "Blues"@,
            }),
    {
        match self {
            Scale::Off => "Off",
            Scale::Major => "Major",
            Scale::Minor => "Minor",
            Scale::Pentatonic => "Penta",
            Scale::Blues => "Blues",
        }
    }

    /// Position of this scale in the fixed selection order.
    pub open spec fn index_spec(self) -> int {
        match self {
            Scale::Off => 0,
            Scale::Major => 1,
            Scale::Minor => 2,
            Scale::Pentatonic => 3,
            Scale::Blues => 4,
        }
    }

    pub fn index(self) -> (i: u8)
        ensures
            i == self.index_spec(),
    {
        match self {
            Scale::Off => 0,
            Scale::Major => 1,
            Scale::Minor => 2,
            Scale::Pentatonic => 3,
            Scale::Blues => 4,
        }
    }

    /// The scale at a selection position (out of range falls back to Off).
    pub open spec fn from_index_spec(i: int) -> Scale {
        if i == 1 {
            Scale::Major
        } else if i == 2 {
            Scale::Minor
        } else if i == 3 {
            Scale::Pentatonic
        } else if i == 4 {
            Scale::Blues
        } else {
            Scale::Off
        }
    }

    pub fn from_index(i: u8) -> (s: Scale)
        ensures
            s == Scale::from_index_spec(i as int),
    {
        match i {
            1 => Scale::Major,
            2 => Scale::Minor,
            3 => Scale::Pentatonic,
            4 => Scale::Blues,
            _ => Scale::Off,
        }
    }

    /// Whether a pitch class (an interval above the root, 0 to 11) belongs to
    /// the scale. Every scale contains its root, and Off contains everything.
    pub open spec fn allows_spec(self, pc: int) -> bool {
        match self {
            Scale::Off => true,
            Scale::Major => pc == 0 || pc == 2 || pc == 4 || pc == 5 || pc == 7 || pc == 9 || pc
                == 11,
            Scale::Minor => pc == 0 || pc == 2 || pc == 3 || pc == 5 || pc == 7 || pc == 8 || pc
                == 10,
            Scale::Pentatonic => pc == 0 || pc == 2 || pc == 4 || pc == 7 || pc == 9,
            Scale::Blues => pc == 0 || pc == 3 || pc == 5 || pc == 6 || pc == 7 || pc == 10,
        }
    }

    pub fn allows(self, pc: u8) -> (r: bool)
        ensures
            r == self.allows_spec(pc as int),
    {
        match self {
            Scale::Off => true,
            Scale::Major => pc == 0 || pc == 2 || pc == 4 || pc == 5 || pc == 7 || pc == 9 || pc
                == 11,
            Scale::Minor => pc == 0 || pc == 2 || pc == 3 || pc == 5 || pc == 7 || pc == 8 || pc
                == 10,
            Scale::Pentatonic => pc == 0 || pc == 2 || pc == 4 || pc == 7 || pc == 9,
            Scale::Blues => pc == 0 || pc == 3 || pc == 5 || pc == 6 || pc == 7 || pc == 10,
        }
    }
}

/// The interval of `note` above `root` within one octave.
pub open spec fn interval_spec(note: int, root: int) -> int {
    (note + 12 - root) % 12
}

/// Snaps played notes down to the selected scale: the quantized note is the
/// highest note at or below the played one whose interval above the root
/// belongs to the scale.
pub struct ScaleQuantizer {
    pub scale: Scale,
    /// Root pitch class, 0 (C) to 11 (B).
    pub root: u8,
}

impl ScaleQuantizer {
    pub open spec fn wf(self) -> bool {
        self.root < 12
    }

    pub fn new() -> (q: ScaleQuantizer)
        ensures
            q.wf(),
            q.scale == Scale::Off,
            q.root == 0,
    {
        ScaleQuantizer { scale: Scale::Off, root: 0 }
    }

    /// Move the root up one pitch class, wrapping after B.
    pub fn cycle_root(&mut self)
        requires
            old(self).wf(),
        ensures
            final(self).wf(),
            final(self).root == (old(self).root + 1) % 12,
            final(self).scale == old(self).scale,
    {
        self.root = (self.root + 1) % 12;
    }

    /// Display name of the root pitch class.
    pub fn root_name(&self) -> (r: &'static str)
        requires
            self.wf(),
        ensures
            r@ == crate::synth::pitch_class_spec(self.root as int),
    {
        match self.root {
            0 => "C",
            1 => "C#",
            2 => "D",
            3 => "D#",
            4 => "E",
            5 => "F",
            6 => "F#",
            7 => "G",
            8 => "G#",
            9 => "A",
            10 => "A#",
            _ => "B",
        }
    }

    /// Snap a note to the scale: the first of `note, note-1, …, note-11` that
    /// the scale allows (relative to the root); a note with no allowed pitch
    /// below it in reach is returned unchanged, and Off passes everything
    /// through.
    pub fn quantize(&self, note: u8) -> (r: u8)
        requires
            self.wf(),
        ensures
            r <= note,
            note - r <= 11,
            self.scale == Scale::Off ==> r == note,
            note >= 11 ==> self.scale.allows_spec(interval_spec(r as int, self.root as int)),
            forall|m: int|
                r < m <= note ==> !self.scale.allows_spec(interval_spec(m, self.root as int)),
    {
        let mut d: u8 = 0;
        while d < 12
            invariant
                d <= 12,
                self.wf(),
                forall|m: int|
                    0 <= m && note - d < m <= note ==> !self.scale.allows_spec(
                        interval_spec(m, self.root as int),
                    ),
            decreases 12 - d,
        {
            if note >= d {
                let candidate: u8 = note - d;
                let pc: u8 = (candidate % 12 + 12 - self.root) % 12;
                proof {
                    vstd::arithmetic::div_mod::lemma_fundamental_div_mod(candidate as int, 12);
                    vstd::arithmetic::div_mod::lemma_mod_multiples_vanish(
                        candidate as int / 12,
                        candidate as int % 12 + 12 - self.root,
                        12,
                    );
                    assert(pc == interval_spec(candidate as int, self.root as int));
                }
                if self.scale.allows(pc) {
                    proof {
                        if self.scale == Scale::Off && d > 0 {
                            assert(!self.scale.allows_spec(
                                interval_spec(note as int, self.root as int),
                            ));
                        }
                    }
                    return candidate;
                }
            }
            d = d + 1;
        }
        proof {
            if note >= 11 {
                let a = note as int + 12 - self.root;
                let d0 = a % 12;
                vstd::arithmetic::div_mod::lemma_mod_bound(a, 12);
                vstd::arithmetic::div_mod::lemma_fundamental_div_mod(a, 12);
                vstd::arithmetic::div_mod::lemma_mod_multiples_vanish(a / 12, 0, 12);
                assert(interval_spec(note as int - d0, self.root as int) == 0);
                assert(self.scale.allows_spec(0));
                assert(false);
            }
        }
        note
    }
}

} // verus!
