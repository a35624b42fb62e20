//! A single-voice FM synthesizer, computed in exact integer arithmetic.
//!
//! Every quantity is a whole number of millionths of its unit: frequencies
//! are in microhertz, envelope times in microseconds, and amplitudes,
//! modulation depths and sine samples in millionths of full scale. The engine
//! in [`synth_core`] never rounds: levels are kept as exact ratios and phases
//! in units fine enough to hold every advance. The sine itself is not
//! computed here; the caller reads the two phases, takes their sines and
//! hands them to the oscillator.
//!
//! Around the engine stand the tables of notes, presets and melodies
//! ([`synth_data`]), the layout of a melody as a list of timed actions
//! ([`sequencer`]), and what a command line needs to find its way around the
//! tables ([`cli`], [`text`]).

pub mod cli;
pub mod sequencer;
pub mod synth_core;
pub mod synth_data;
pub mod text;
