//! Control-surface vocabulary: the focus and prompt modes, the two-row piano
//! key map, and the braille cell layout of the oscilloscope view.

use vstd::prelude::*;

verus! {

/// Which panel has keyboard focus.
#[derive(Clone, Debug, PartialEq, Eq, Structural)]
pub enum AppMode {
    /// Live keyboard play.
    Play,
    /// Edit the melodic step sequencer 1.
    SynthSeq,
    /// Edit the melodic step sequencer 2.
    SynthSeq2,
    /// Edit the drum machine.
    Drums,
    /// Adjust master output effects.
    Effects,
}

impl AppMode {
    /// Cycle focus: Play → SynthSeq → SynthSeq2 → Drums → Effects → Play.
    pub fn next(self) -> (r: Self)
        ensures
            r == (match self {
                AppMode::Play => AppMode::SynthSeq,
                AppMode::SynthSeq => AppMode::SynthSeq2,
                AppMode::SynthSeq2 => AppMode::Drums,
                AppMode::Drums => AppMode::Effects,
                AppMode::Effects => AppMode::Play,
            }),
    {
        match self {
            AppMode::Play => AppMode::SynthSeq,
            AppMode::SynthSeq => AppMode::SynthSeq2,
            AppMode::SynthSeq2 => AppMode::Drums,
            AppMode::Drums => AppMode::Effects,
            AppMode::Effects => AppMode::Play,
        }
    }
}

/// State of the file-path prompt.
#[derive(Clone, Debug, PartialEq, Eq, Structural)]
pub enum InputMode {
    /// No prompt is open.
    Idle,
    Save,
    Load,
}

/// The two-row piano layout: each playable key's semitone offset and octave
/// offset, or nothing for an unmapped key.
pub open spec fn key_offsets_spec(key: char) -> Option<(int, int)> {
    // Lower row: white keys on z..m and the punctuation beyond, black keys on
    // the home row; upper row: the same shape one octave up.
    if key == 'z' {
        Some((0int, 0int))
    } else if key == 'x' {
        Some((2int, 0int))
    } else if key == 'c' {
        Some((4int, 0int))
    } else if key == 'v' {
        Some((5int, 0int))
    } else if key == 'b' {
        Some((7int, 0int))
    } else if key == 'n' {
        Some((9int, 0int))
    } else if key == 'm' {
        Some((11int, 0int))
    } else if key == ',' {
        Some((12int, 0int))
    } else if key == '.' {
        Some((14int, 0int))
    } else if key == '/' {
        Some((16int, 0int))
    } else if key == 's' {
        Some((1int, 0int))
    } else if key == 'd' {
        Some((3int, 0int))
    } else if key == 'g' {
        Some((6int, 0int))
    } else if key == 'h' {
        Some((8int, 0int))
    } else if key == 'j' {
        Some((10int, 0int))
    } else if key == 'l' {
        Some((13int, 0int))
    } else if key == ';' {
        Some((15int, 0int))
    } else if key == 'q' {
        Some((0int, 1int))
    } else if key == 'w' {
        Some((2int, 1int))
    } else if key == 'e' {
        Some((4int, 1int))
    } else if key == 'r' {
        Some((5int, 1int))
    } else if key == 't' {
        Some((7int, 1int))
    } else if key == 'y' {
        Some((9int, 1int))
    } else if key == 'u' {
        Some((11int, 1int))
    } else if key == 'i' {
        Some((12int, 1int))
    } else if key == 'o' {
        Some((14int, 1int))
    } else if key == 'p' {
        Some((16int, 1int))
    } else if key == '2' {
        Some((1int, 1int))
    } else if key == '3' {
        Some((3int, 1int))
    } else if key == '5' {
        Some((6int, 1int))
    } else if key == '6' {
        Some((8int, 1int))
    } else if key == '7' {
        Some((10int, 1int))
    } else if key == '9' {
        Some((13int, 1int))
    } else if key == '0' {
        Some((15int, 1int))
    } else {
        None
    }
}

/// Map a typed key to a note number: the key's semitone within the layout,
/// lifted by the base octave; unmapped keys and notes outside 0 to 127 give
/// nothing.
pub fn key_to_note(key: char, base_octave: i32) -> (r: Option<u8>)
    requires
        0 <= base_octave <= 8,
    ensures
        r == (match key_offsets_spec(key) {
            Some(p) => {
                let n = (base_octave + p.1) * 12 + 12 + p.0;
                if 0 <= n <= 127 {
                    Some(n as u8)
                } else {
                    None::<u8>
                }
            },
            None => None::<u8>,
        }),
{
    let (st, oct): (i32, i32) = match key {
        'z' => (0, 0),
        'x' => (2, 0),
        'c' => (4, 0),
        'v' => (5, 0),
        'b' => (7, 0),
        'n' => (9, 0),
        'm' => (11, 0),
        ',' => (12, 0),
        '.' => (14, 0),
        '/' => (16, 0),
        's' => (1, 0),
        'd' => (3, 0),
        'g' => (6, 0),
        'h' => (8, 0),
        'j' => (10, 0),
        'l' => (13, 0),
        ';' => (15, 0),
        'q' => (0, 1),
        'w' => (2, 1),
        'e' => (4, 1),
        'r' => (5, 1),
        't' => (7, 1),
        'y' => (9, 1),
        'u' => (11, 1),
        'i' => (12, 1),
        'o' => (14, 1),
        'p' => (16, 1),
        '2' => (1, 1),
        '3' => (3, 1),
        '5' => (6, 1),
        '6' => (8, 1),
        '7' => (10, 1),
        '9' => (13, 1),
        '0' => (15, 1),
        _ => {
            return None;
        },
    };
    let note: i32 = (base_octave + oct) * 12 + 12 + st;
    if 0 <= note && note <= 127 {
        Some(note as u8)
    } else {
        None
    }
}

/// The braille dot for a 2x4 cell position: column then row, as Unicode
/// braille patterns order their bits.
pub fn braille_bit(col: usize, row: usize) -> (r: u8)
    ensures
        r == (if col == 0 && row == 0 {
            0x01int
        } else if col == 0 && row == 1 {
            0x02int
        } else if col == 0 && row == 2 {
            0x04int
        } else if col == 0 && row == 3 {
            0x40int
        } else if col == 1 && row == 0 {
            0x08int
        } else if col == 1 && row == 1 {
            0x10int
        } else if col == 1 && row == 2 {
            0x20int
        } else if col == 1 && row == 3 {
            0x80int
        } else {
            0int
        }),
{
    match (col, row) {
        (0, 0) => 0x01,
        (0, 1) => 0x02,
        (0, 2) => 0x04,
        (0, 3) => 0x40,
        (1, 0) => 0x08,
        (1, 1) => 0x10,
        (1, 2) => 0x20,
        (1, 3) => 0x80,
        _ => 0,
    }
}

} // verus!
