//! Sample-accurate melodic step sequencer, driven by the shared master clock.

use vstd::prelude::*;

verus! {

/// An event fired when the sequencer crosses a step boundary.
#[derive(Clone, Copy, Debug, PartialEq, Eq, Structural)]
pub struct StepEvent {
    pub note_off: Option<u8>,
    pub note_on: Option<u8>,
}

/// Length of one sixteenth-note step in samples: `sr * 60 / (bpm * 4)`,
/// rounded to the nearest whole sample (ties rounding down), never below one.
pub open spec fn samples_per_step_spec(sr: u32, bpm: u32) -> int {
    let raw = (2 * (sr * 60) + bpm * 4 - 1) / (bpm * 8);
    if raw < 1 {
        1
    } else {
        raw
    }
}

/// Shared step length of every rhythmic subsystem, from the master tempo.
pub fn samples_per_step(sr: u32, bpm: u32) -> (sps: u64)
    requires
        1 <= sr <= 1_000_000,
        1 <= bpm <= 1000,
    ensures
        sps == samples_per_step_spec(sr, bpm),
        1 <= sps <= 130_000_000,
{
    let raw: u64 = (2 * (sr as u64 * 60) + bpm as u64 * 4 - 1) / (bpm as u64 * 8);
    if raw < 1 {
        1
    } else {
        raw
    }
}

/// A vector of `n` empty steps.
fn empty_steps(n: usize) -> (r: Vec<Option<u8>>)
    ensures
        r@.len() == n,
        forall|i: int| 0 <= i < n ==> r@[i] is None,
{
    let mut r: Vec<Option<u8>> = Vec::new();
    let mut i: usize = 0;
    while i < n
        invariant
            i <= n,
            r@.len() == i,
            forall|j: int| 0 <= j < i ==> r@[j] is None,
        decreases n - i,
    {
        r.push(None);
        i = i + 1;
    }
    r
}

/// Sample-accurate melodic step sequencer.
///
/// The tempo is not stored here: it is passed to `tick` every sample from the
/// engine's master `bpm`, so the melodic and drum sequencers always share one
/// master clock.
pub struct Sequencer {
    pub steps: Vec<Option<u8>>,
    pub num_steps: usize,
    pub current_step: usize,
    pub playing: bool,
    pub sample_rate: u32,
}

impl Sequencer {
    /// Step storage always matches the step count and the cursor stays in range.
    pub open spec fn wf(self) -> bool {
        &&& 1 <= self.num_steps <= 32
        &&& self.steps@.len() == self.num_steps
        &&& self.current_step < self.num_steps
        &&& 1 <= self.sample_rate <= 1_000_000
    }

    pub fn new(sample_rate: u32) -> (s: Sequencer)
        requires
            1 <= sample_rate <= 1_000_000,
        ensures
            s.wf(),
            s.num_steps == 16,
            s.current_step == 0,
            !s.playing,
            s.sample_rate == sample_rate,
            forall|i: int| 0 <= i < 16 ==> s.steps@[i] is None,
    {
        Sequencer {
            steps: empty_steps(16),
            num_steps: 16,
            current_step: 0,
            playing: false,
            sample_rate,
        }
    }

    /// The step index the given clock value falls in.
    pub open spec fn step_at(self, bpm: u32, clock: u64) -> int {
        (clock as int / samples_per_step_spec(self.sample_rate, bpm)) % (self.num_steps as int)
    }

    /// Whether the given clock value is exactly a step boundary.
    pub open spec fn on_boundary(self, bpm: u32, clock: u64) -> bool {
        clock as int % samples_per_step_spec(self.sample_rate, bpm) == 0
    }

    /// The event `tick` reports for a clock value: on a step boundary while
    /// playing, the previous step's note to release and the new step's note
    /// to trigger; otherwise nothing.
    pub open spec fn seq_event(self, bpm: u32, clock: u64) -> Option<StepEvent> {
        if self.playing && self.on_boundary(bpm, clock) {
            let idx = self.step_at(bpm, clock);
            let prev = if idx == 0 {
                self.num_steps - 1
            } else {
                idx - 1
            };
            Some(StepEvent { note_off: self.steps@[prev], note_on: self.steps@[idx] })
        } else {
            None
        }
    }

    /// Called once per audio sample with the shared master clock. Moves the
    /// cursor to the step the clock falls in and, exactly on a step boundary,
    /// reports the previous step's note to release and the new step's note to
    /// trigger; paused, it does nothing.
    pub fn tick(&mut self, bpm: u32, clock: u64) -> (ev: Option<StepEvent>)
        requires
            old(self).wf(),
            1 <= bpm <= 1000,
        ensures
            final(self).wf(),
            final(self).steps@ == old(self).steps@,
            final(self).num_steps == old(self).num_steps,
            final(self).playing == old(self).playing,
            final(self).sample_rate == old(self).sample_rate,
            !old(self).playing ==> ev is None && final(self).current_step == old(
                self,
            ).current_step,
            old(self).playing ==> final(self).current_step == old(self).step_at(bpm, clock),
            old(self).playing && old(self).on_boundary(bpm, clock) ==> ({
                let idx = old(self).step_at(bpm, clock);
                let prev = if idx == 0 {
                    old(self).num_steps - 1
                } else {
                    idx - 1
                };
                ev == Some(
                    StepEvent {
                        note_off: old(self).steps@[prev],
                        note_on: old(self).steps@[idx],
                    },
                )
            }),
            old(self).playing && !old(self).on_boundary(bpm, clock) ==> ev is None,
            ev == old(self).seq_event(bpm, clock),
    {
        if !self.playing {
            return None;
        }
        let sps: u64 = samples_per_step(self.sample_rate, bpm);
        let step_idx: usize = ((clock / sps) % (self.num_steps as u64)) as usize;
        let phase_in: u64 = clock % sps;

        self.current_step = step_idx;

        if phase_in == 0 {
            let prev: usize = if step_idx == 0 {
                self.num_steps - 1
            } else {
                step_idx - 1
            };
            Some(StepEvent { note_off: self.steps[prev], note_on: self.steps[step_idx] })
        } else {
            None
        }
    }

    /// Toggle play/pause. Pausing returns the note currently held, so the
    /// caller can release it; resuming returns nothing.
    pub fn toggle_play(&mut self) -> (held: Option<u8>)
        requires
            old(self).wf(),
        ensures
            final(self).wf(),
            final(self).playing == !old(self).playing,
            final(self).steps@ == old(self).steps@,
            final(self).num_steps == old(self).num_steps,
            final(self).current_step == old(self).current_step,
            final(self).sample_rate == old(self).sample_rate,
            held == (if old(self).playing {
                old(self).steps@[old(self).current_step as int]
            } else {
                None::<u8>
            }),
    {
        self.playing = !self.playing;
        if self.playing {
            None
        } else {
            self.steps[self.current_step]
        }
    }

    /// Stop playback and rewind to the first step, returning the note that was
    /// held so the caller can release it.
    pub fn stop(&mut self) -> (held: Option<u8>)
        requires
            old(self).wf(),
        ensures
            final(self).wf(),
            !final(self).playing,
            final(self).current_step == 0,
            final(self).steps@ == old(self).steps@,
            final(self).num_steps == old(self).num_steps,
            final(self).sample_rate == old(self).sample_rate,
            held == (if old(self).playing {
                old(self).steps@[old(self).current_step as int]
            } else {
                None::<u8>
            }),
    {
        let held: Option<u8> = if self.playing {
            self.steps[self.current_step]
        } else {
            None
        };
        self.playing = false;
        self.current_step = 0;
        held
    }

    /// The step-count cycle: 8 → 16 → 24 → 32 → 8 (anything else restarts at 8).
    pub open spec fn next_num_steps(n: usize) -> usize {
        if n == 8 {
            16
        } else if n == 16 {
            24
        } else if n == 24 {
            32
        } else {
            8
        }
    }

    /// Cycle the pattern length, padding new slots empty, keeping the prefix,
    /// and rewinding the cursor if it fell out of range.
    pub fn cycle_num_steps(&mut self)
        requires
            old(self).wf(),
        ensures
            final(self).wf(),
            final(self).num_steps == Sequencer::next_num_steps(old(self).num_steps),
            final(self).steps@.len() == final(self).num_steps,
            forall|i: int|
                0 <= i < final(self).num_steps ==> final(self).steps@[i] == (if i < old(
                    self,
                ).num_steps {
                    old(self).steps@[i]
                } else {
                    None::<u8>
                }),
            final(self).current_step == (if old(self).current_step < final(self).num_steps {
                old(self).current_step
            } else {
                0
            }),
            final(self).playing == old(self).playing,
            final(self).sample_rate == old(self).sample_rate,
    {
        let next: usize = match self.num_steps {
            8 => 16,
            16 => 24,
            24 => 32,
            _ => 8,
        };
        let mut resized: Vec<Option<u8>> = Vec::new();
        let mut i: usize = 0;
        while i < next
            invariant
                i <= next,
                resized@.len() == i,
                *self == *old(self),
                old(self).wf(),
                forall|j: int|
                    0 <= j < i ==> resized@[j] == (if j < old(self).num_steps {
                        old(self).steps@[j]
                    } else {
                        None::<u8>
                    }),
            decreases next - i,
        {
            if i < self.steps.len() {
                resized.push(self.steps[i]);
            } else {
                resized.push(None);
            }
            i = i + 1;
        }
        self.steps = resized;
        self.num_steps = next;
        if self.current_step >= next {
            self.current_step = 0;
        }
    }

    /// Write a note into a step; an out-of-range index is a no-op.
    pub fn set_step(&mut self, step: usize, note: u8)
        requires
            old(self).wf(),
        ensures
            final(self).wf(),
            step < old(self).steps@.len() ==> final(self).steps@ == old(self).steps@.update(
                step as int,
                Some(note),
            ),
            step >= old(self).steps@.len() ==> final(self).steps@ == old(self).steps@,
            final(self).num_steps == old(self).num_steps,
            final(self).current_step == old(self).current_step,
            final(self).playing == old(self).playing,
            final(self).sample_rate == old(self).sample_rate,
    {
        if step < self.steps.len() {
            self.steps.set(step, Some(note));
        }
    }

    /// Clear a step; an out-of-range index is a no-op.
    pub fn clear_step(&mut self, step: usize)
        requires
            old(self).wf(),
        ensures
            final(self).wf(),
            step < old(self).steps@.len() ==> final(self).steps@ == old(self).steps@.update(
                step as int,
                None::<u8>,
            ),
            step >= old(self).steps@.len() ==> final(self).steps@ == old(self).steps@,
            final(self).num_steps == old(self).num_steps,
            final(self).current_step == old(self).current_step,
            final(self).playing == old(self).playing,
            final(self).sample_rate == old(self).sample_rate,
    {
        if step < self.steps.len() {
            self.steps.set(step, None);
        }
    }
}

} // verus!
