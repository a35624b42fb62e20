//! The sample-generation engine: envelope, oscillator pair and the voice that
//! composes them.

pub mod envelope;
pub mod level;
pub mod oscillator;
pub mod voice;

pub use envelope::{Envelope, EnvelopeState, EnvelopeView};
pub use level::{Level, Ratio, UNITY};
pub use oscillator::{FMOscillator, FMParams, OscillatorView};
pub use voice::{FMSynth, Sample, VoiceEvent, VoiceView};
