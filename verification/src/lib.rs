//! Core engine of a terminal polyphonic synthesizer and drum machine.
//!
//! The library holds the deterministic control core: ADSR envelope state
//! machines, the sample-accurate step sequencers, the drum machine with
//! swing, probability gating and Euclidean fills, effect and routing
//! parameter state with range clamping, and the persisted snapshot model.
//! Amplitudes, envelope levels and send levels are carried as scaled
//! integers (per-mille, or millionths for envelope levels) so that every
//! rule about them is exact; waveform mathematics and terminal I/O live
//! in the surrounding application.

pub mod control;
pub mod drums;
pub mod effects;
pub mod save;
pub mod scale;
pub mod sequencer;
pub mod synth;
