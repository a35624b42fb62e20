//! The voice: one oscillator shaped by one envelope.

use vstd::prelude::*;

use crate::synth_core::envelope::{Envelope, EnvelopeState, EnvelopeView};
use crate::synth_core::level::{Level, Ratio};
use crate::synth_core::oscillator::{FMOscillator, FMParams, OscillatorView, UNITY_SQUARED};

verus! {

/// One sample of a voice, kept as its two exact factors: the oscillator's
/// output, in millionths of millionths, and the envelope's level.
///
/// Its value is their product, `oscillator / UNITY_SQUARED * level`.
#[derive(Clone, Copy, Debug, PartialEq, Eq, Structural)]
pub struct Sample {
    pub oscillator: i64,
    pub envelope: Level,
}

impl View for Sample {
    type V = Ratio;

    open spec fn view(&self) -> Ratio {
        Ratio {
            num: self.oscillator * self.envelope@.num,
            den: UNITY_SQUARED * self.envelope@.den,
        }
    }
}

/// What can happen to a voice: a control call, or the production of one
/// sample from the sines of its two phases.
pub ghost enum VoiceEvent {
    NoteOn,
    NoteOff,
    SetParams(FMParams),
    Sample { modulator_wave: i32, carrier_wave: i32 },
}

/// The abstract state of an [`FMSynth`]: that of its oscillator and that of
/// its envelope.
pub ghost struct VoiceView {
    pub oscillator: OscillatorView,
    pub envelope: EnvelopeView,
}

impl VoiceView {
    /// A silent voice: the oscillator at the start of both cycles, the
    /// envelope at rest.
    pub open spec fn initial(sample_rate: u32, params: FMParams) -> VoiceView {
        VoiceView {
            oscillator: OscillatorView::initial(sample_rate, params),
            envelope: EnvelopeView::initial(sample_rate),
        }
    }

    /// A note starts: the envelope is triggered.
    pub open spec fn note_on(self) -> VoiceView {
        VoiceView { envelope: self.envelope.trigger(), ..self }
    }

    /// A note ends: the envelope is released.
    pub open spec fn note_off(self) -> VoiceView {
        VoiceView { envelope: self.envelope.release(), ..self }
    }

    /// The oscillator's parameters are replaced; the envelope is untouched.
    pub open spec fn set_params(self, params: FMParams) -> VoiceView {
        VoiceView { oscillator: self.oscillator.set_params(params), ..self }
    }

    /// One sample passes: oscillator and envelope each take a step.
    pub open spec fn step(self, modulator_wave: i32) -> VoiceView {
        VoiceView { oscillator: self.oscillator.step(modulator_wave), envelope: self.envelope.step() }
    }

    /// The sample that the step puts out: the oscillator's output times the
    /// level the envelope steps to.
    pub open spec fn sample(self, carrier_wave: i32) -> Ratio {
        Ratio {
            num: self.oscillator.output(carrier_wave) * self.envelope.step().level.num,
            den: UNITY_SQUARED * self.envelope.step().level.den,
        }
    }

    /// The voice after `event`.
    pub open spec fn react(self, event: VoiceEvent) -> VoiceView {
        match event {
            VoiceEvent::NoteOn => self.note_on(),
            VoiceEvent::NoteOff => self.note_off(),
            VoiceEvent::SetParams(params) => self.set_params(params),
            VoiceEvent::Sample { modulator_wave, carrier_wave } => self.step(modulator_wave),
        }
    }

    /// The voice after `events`, in order.
    pub open spec fn run(self, events: Seq<VoiceEvent>) -> VoiceView
        decreases events.len(),
    {
        if events.len() == 0 {
            self
        } else {
            self.run(events.drop_last()).react(events.last())
        }
    }

    /// The samples that the voice puts out while `events` happen, in order:
    /// one for each `Sample` event.
    pub open spec fn samples(self, events: Seq<VoiceEvent>) -> Seq<Ratio>
        decreases events.len(),
    {
        if events.len() == 0 {
            Seq::empty()
        } else {
            let earlier = self.samples(events.drop_last());
            match events.last() {
                VoiceEvent::Sample { modulator_wave, carrier_wave } => earlier.push(
                    self.run(events.drop_last()).sample(carrier_wave),
                ),
                _ => earlier,
            }
        }
    }
}

/// A single FM voice: an oscillator shaped by an envelope.
pub struct FMSynth {
    oscillator: FMOscillator,
    envelope: Envelope,
}

impl View for FMSynth {
    type V = VoiceView;

    closed spec fn view(&self) -> VoiceView {
        VoiceView { oscillator: self.oscillator@, envelope: self.envelope@ }
    }
}

impl FMSynth {
    /// A silent voice for the given sample rate, in hertz.
    pub fn new(sample_rate: u32, params: FMParams) -> (synth: FMSynth)
        requires
            sample_rate > 0,
        ensures
            synth@ == VoiceView::initial(sample_rate, params),
    {
        FMSynth {
            oscillator: FMOscillator::new(sample_rate, params),
            envelope: Envelope::new(sample_rate),
        }
    }

    /// Produces the next sample: the oscillator's output times the
    /// envelope's level.
    ///
    /// `modulator_wave` and `carrier_wave` are the sines of the oscillator's
    /// two phases as they stand before the call, in millionths.
    pub fn next_sample(&mut self, modulator_wave: i32, carrier_wave: i32) -> (sample: Sample)
        ensures
            final(self)@ == old(self)@.step(modulator_wave),
            sample.oscillator == old(self)@.oscillator.output(carrier_wave),
            sample.envelope@ == final(self)@.envelope.level,
            sample@ == old(self)@.sample(carrier_wave),
            old(self)@.oscillator.in_cycle() && old(self)@.oscillator.advances_in_cycle(
                modulator_wave,
            ) ==> final(self)@.oscillator.in_cycle(),
    {
        let oscillator: i64 = self.oscillator.next_sample(modulator_wave, carrier_wave);
        let envelope: Level = self.envelope.process();
        Sample { oscillator, envelope }
    }

    /// Starts a note.
    pub fn note_on(&mut self)
        ensures
            final(self)@ == old(self)@.note_on(),
    {
        self.envelope.trigger();
    }

    /// Ends the note.
    pub fn note_off(&mut self)
        ensures
            final(self)@ == old(self)@.note_off(),
    {
        self.envelope.release();
    }

    /// Replaces the oscillator's parameters. Neither the phases nor the
    /// envelope change.
    pub fn set_params(&mut self, params: FMParams)
        ensures
            final(self)@ == old(self)@.set_params(params),
            final(self)@.envelope == old(self)@.envelope,
            final(self)@.oscillator.carrier_phase == old(self)@.oscillator.carrier_phase,
            final(self)@.oscillator.modulator_phase == old(self)@.oscillator.modulator_phase,
    {
        self.oscillator.set_params(params);
    }

    /// The voice's oscillator.
    pub fn oscillator(&self) -> (oscillator: &FMOscillator)
        ensures
            oscillator@ == self@.oscillator,
    {
        &self.oscillator
    }

    /// The voice's envelope.
    pub fn envelope(&self) -> (envelope: &Envelope)
        ensures
            envelope@ == self@.envelope,
    {
        &self.envelope
    }
}

/// A voice at rest is silent: whatever the oscillator puts out, the sample
/// is zero.
pub proof fn lemma_rest_is_silent(voice: VoiceView, carrier_wave: i32)
    requires
        voice.envelope.state == EnvelopeState::Idle,
    ensures
        voice.sample(carrier_wave).is_finite(),
        voice.sample(carrier_wave).num == 0,
{
}

/// Sample production is deterministic: two voices in the same state that
/// meet the same events put out the same samples and end in the same state.
pub proof fn lemma_same_events_same_samples(
    first: VoiceView,
    second: VoiceView,
    events: Seq<VoiceEvent>,
)
    requires
        first == second,
    ensures
        first.samples(events) == second.samples(events),
        first.run(events) == second.run(events),
{
}

} // verus!
